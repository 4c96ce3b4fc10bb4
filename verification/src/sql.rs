//! The SQL that lists todos, built with sqlx's `QueryBuilder`.
use vstd::prelude::*;

use sqlx::{MySql, QueryBuilder};

use crate::query::ValidatedTodoQuery;
use crate::text::{trim, trimmed};
use crate::todo::opt_text;

verus! {

/// A MySQL query under construction: sqlx's `QueryBuilder`, whose SQL text and bound
/// values the contracts below speak of through [`builder_sql`] and [`builder_arguments`].
#[verifier::external_body]
pub struct SqlQuery {
    pub builder: QueryBuilder<'static, MySql>,
}

/// A value bound to a placeholder of a query.
pub enum BoundValue {
    Flag(bool),
    Integer(i64),
    Text(Seq<char>),
}

/// The SQL text that a query builder holds.
pub uninterp spec fn builder_sql(builder: SqlQuery) -> Seq<char>;

/// The values bound so far, in order; `None` once the builder has handed its
/// arguments to a built query.
pub uninterp spec fn builder_arguments(builder: SqlQuery) -> Option<Seq<BoundValue>>;

/// Starts a builder with `init` as its SQL: `QueryBuilder::new` stores the text and an
/// empty argument list.
#[verifier::external_body]
fn new_query(init: &'static str) -> (builder: SqlQuery)
    ensures
        builder_sql(builder) == init@,
        builder_arguments(builder) == Some(Seq::<BoundValue>::empty()),
{
    SqlQuery { builder: QueryBuilder::new(init) }
}

/// `QueryBuilder::push` writes `sql` after the text and leaves the arguments alone; it
/// panics once the arguments were taken, which `requires` excludes.
#[verifier::external_body]
fn push_sql(builder: &mut SqlQuery, sql: &str)
    requires
        builder_arguments(*old(builder)) is Some,
    ensures
        builder_sql(*final(builder)) == builder_sql(*old(builder)) + sql@,
        builder_arguments(*final(builder)) == builder_arguments(*old(builder)),
{
    builder.builder.push(sql);
}

/// `QueryBuilder::push_bind` with a `bool`: binds the value and writes MySQL's
/// placeholder `?` after the text.
#[verifier::external_body]
fn push_bind_flag(builder: &mut SqlQuery, value: bool)
    requires
        builder_arguments(*old(builder)) is Some,
    ensures
        builder_sql(*final(builder)) == builder_sql(*old(builder)) + "?"@,
        builder_arguments(*final(builder)) == Some(
            builder_arguments(*old(builder))->0.push(BoundValue::Flag(value)),
        ),
{
    builder.builder.push_bind(value);
}

/// `QueryBuilder::push_bind` with an `i64`: binds the value and writes MySQL's
/// placeholder `?` after the text.
#[verifier::external_body]
fn push_bind_integer(builder: &mut SqlQuery, value: i64)
    requires
        builder_arguments(*old(builder)) is Some,
    ensures
        builder_sql(*final(builder)) == builder_sql(*old(builder)) + "?"@,
        builder_arguments(*final(builder)) == Some(
            builder_arguments(*old(builder))->0.push(BoundValue::Integer(value)),
        ),
{
    builder.builder.push_bind(value);
}

/// `QueryBuilder::push_bind` with a `String`: binds the value and writes MySQL's
/// placeholder `?` after the text.
#[verifier::external_body]
fn push_bind_text(builder: &mut SqlQuery, value: String)
    requires
        builder_arguments(*old(builder)) is Some,
    ensures
        builder_sql(*final(builder)) == builder_sql(*old(builder)) + "?"@,
        builder_arguments(*final(builder)) == Some(
            builder_arguments(*old(builder))->0.push(BoundValue::Text(value@)),
        ),
{
    builder.builder.push_bind(value);
}

/// The `LIKE` pattern of a search term: the trimmed term between `%` signs, unless it
/// trims to nothing.
pub open spec fn search_pattern(search: Option<Seq<char>>) -> Option<Seq<char>> {
    match search {
        Some(s) if trimmed(s).len() > 0 => Some("%"@ + trimmed(s) + "%"@),
        _ => None,
    }
}

/// The SQL that restricts a listing to live todos matching the parameters.
pub open spec fn filter_sql(finished: Option<bool>, search: Option<Seq<char>>) -> Seq<char> {
    " WHERE deleted_at IS NULL"@ + (if finished is Some {
        " AND finished = "@ + "?"@
    } else {
        Seq::<char>::empty()
    }) + (if search_pattern(search) is Some {
        " AND (name LIKE "@ + "?"@ + " OR description LIKE "@ + "?"@ + ")"@
    } else {
        Seq::<char>::empty()
    })
}

/// The values that the restriction binds, in the order of their placeholders.
pub open spec fn filter_arguments(finished: Option<bool>, search: Option<Seq<char>>) -> Seq<BoundValue> {
    (match finished {
        Some(f) => seq![BoundValue::Flag(f)],
        None => Seq::<BoundValue>::empty(),
    }) + (match search_pattern(search) {
        Some(p) => seq![BoundValue::Text(p), BoundValue::Text(p)],
        None => Seq::<BoundValue>::empty(),
    })
}

pub open spec fn count_select_sql() -> Seq<char> {
    "SELECT COUNT(*) FROM todos"@
}

pub open spec fn items_select_sql() -> Seq<char> {
    "SELECT id, name, description, finished, created_at, updated_at, deleted_at FROM todos"@
}

/// The SQL of the page of todos that `query` asks for.
pub open spec fn items_sql(query: ValidatedTodoQuery) -> Seq<char> {
    items_select_sql() + filter_sql(query.finished, opt_text(query.search)) + " ORDER BY "@
        + query.sort_by.sql_name() + " "@ + query.order_by.sql_keyword() + " LIMIT "@ + "?"@
        + " OFFSET "@ + "?"@
}

/// The values bound by the page query, in the order of their placeholders.
pub open spec fn items_arguments(query: ValidatedTodoQuery) -> Seq<BoundValue> {
    filter_arguments(query.finished, opt_text(query.search)).push(
        BoundValue::Integer(query.limit),
    ).push(BoundValue::Integer(query.offset))
}

/// Appends the restriction of a listing to live todos that match the parameters.
fn apply_todo_filters(builder: &mut SqlQuery, params: &ValidatedTodoQuery)
    requires
        builder_arguments(*old(builder)) is Some,
    ensures
        builder_sql(*final(builder)) == builder_sql(*old(builder)) + filter_sql(
            params.finished,
            opt_text(params.search),
        ),
        builder_arguments(*final(builder)) == Some(
            builder_arguments(*old(builder))->0 + filter_arguments(
                params.finished,
                opt_text(params.search),
            ),
        ),
{
    let ghost sql0 = builder_sql(*builder);
    let ghost args0 = builder_arguments(*builder)->0;
    push_sql(builder, " WHERE deleted_at IS NULL");
    let ghost sql1 = builder_sql(*builder);
    if let Some(finished) = params.finished {
        push_sql(builder, " AND finished = ");
        push_bind_flag(builder, finished);
    }
    let ghost sql2 = builder_sql(*builder);
    let ghost args2 = builder_arguments(*builder)->0;
    assert(sql2 == sql1 + (if params.finished is Some {
        " AND finished = "@ + "?"@
    } else {
        Seq::<char>::empty()
    }));
    if let Some(search) = &params.search {
        let search = trim(search.as_str());
        if !search.as_str().is_empty() {
            let mut pattern = "%".to_owned();
            pattern.append(search.as_str());
            pattern.append("%");
            push_sql(builder, " AND (name LIKE ");
            push_bind_text(builder, pattern.clone());
            push_sql(builder, " OR description LIKE ");
            push_bind_text(builder, pattern);
            push_sql(builder, ")");
        }
    }
    assert(builder_sql(*builder) =~= sql0 + filter_sql(params.finished, opt_text(params.search)));
    assert(builder_arguments(*builder)->0 =~= args0 + filter_arguments(
        params.finished,
        opt_text(params.search),
    ));
}

/// Builds the query that counts the live todos matching the parameters.
pub fn build_count_query(params: &ValidatedTodoQuery) -> (builder: SqlQuery)
    ensures
        builder_sql(builder) == count_select_sql() + filter_sql(params.finished, opt_text(params.search)),
        builder_arguments(builder) == Some(filter_arguments(params.finished, opt_text(params.search))),
{
    let mut builder = new_query("SELECT COUNT(*) FROM todos");
    apply_todo_filters(&mut builder, params);
    assert(Seq::<BoundValue>::empty() + filter_arguments(params.finished, opt_text(params.search))
        =~= filter_arguments(params.finished, opt_text(params.search)));
    builder
}

/// Builds the query that fetches the page of live todos that the parameters ask for,
/// in the order they ask for.
pub fn build_items_query(params: &ValidatedTodoQuery) -> (builder: SqlQuery)
    ensures
        builder_sql(builder) == items_sql(*params),
        builder_arguments(builder) == Some(items_arguments(*params)),
        builder_arguments(builder)->0.len() >= 2,
        builder_arguments(builder)->0[builder_arguments(builder)->0.len() - 2] == BoundValue::Integer(
            params.limit,
        ),
        builder_arguments(builder)->0.last() == BoundValue::Integer(params.offset),
{
    let mut builder = new_query(
        "SELECT id, name, description, finished, created_at, updated_at, deleted_at FROM todos",
    );
    apply_todo_filters(&mut builder, params);
    push_sql(&mut builder, " ORDER BY ");
    push_sql(&mut builder, params.sort_by.as_sql());
    push_sql(&mut builder, " ");
    push_sql(&mut builder, params.order_by.as_sql());
    push_sql(&mut builder, " LIMIT ");
    push_bind_integer(&mut builder, params.limit);
    push_sql(&mut builder, " OFFSET ");
    push_bind_integer(&mut builder, params.offset);
    assert(builder_sql(builder) =~= items_sql(*params));
    assert(builder_arguments(builder)->0 =~= items_arguments(*params));
    builder
}

} // verus!
