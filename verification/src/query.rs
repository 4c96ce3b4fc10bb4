//! Listing parameters: paging, searching and ordering of todos.
use vstd::prelude::*;

use crate::error::{error_of, ApiError, ApiResult, ErrorView};
use crate::text::{eq_ignore_ascii_case, equal_ignoring_ascii_case, text_eq, trim, trimmed};
use crate::todo::opt_text;

verus! {

/// Page size when the client names none.
pub const DEFAULT_LIMIT: i64 = 20;

/// Largest page size a client may ask for.
pub const MAX_LIMIT: i64 = 100;

/// First page, and the page served when the client names none.
pub const DEFAULT_PAGE: i64 = 1;

/// The listing parameters as the client sent them.
#[derive(Debug)]
pub struct TodoQueryParams {
    pub search: Option<String>,
    pub finished: Option<bool>,
    pub limit: Option<i64>,
    pub page: Option<i64>,
    pub sort_by: Option<String>,
    pub order_by: Option<String>,
}

impl Default for TodoQueryParams {
    fn default() -> (r: Self)
        ensures
            r.search is None,
            r.finished is None,
            r.limit is None,
            r.page is None,
            r.sort_by is None,
            r.order_by is None,
    {
        TodoQueryParams {
            search: None,
            finished: None,
            limit: None,
            page: None,
            sort_by: None,
            order_by: None,
        }
    }
}

/// The column that a listing is ordered by.
#[derive(Debug, Clone, Copy, PartialEq, Eq, Structural)]
pub enum TodoSortField {
    Id,
    Name,
    Description,
    Finished,
    CreatedAt,
    UpdatedAt,
}

impl TodoSortField {
    /// The column's name in SQL.
    pub open spec fn sql_name(self) -> Seq<char> {
        match self {
            TodoSortField::Id => "id"@,
            TodoSortField::Name => "name"@,
            TodoSortField::Description => "description"@,
            TodoSortField::Finished => "finished"@,
            TodoSortField::CreatedAt => "created_at"@,
            TodoSortField::UpdatedAt => "updated_at"@,
        }
    }

    /// Returns the column's name in SQL.
    pub fn as_sql(&self) -> (r: &'static str)
        ensures
            r@ == self.sql_name(),
    {
        match self {
            TodoSortField::Id => "id",
            TodoSortField::Name => "name",
            TodoSortField::Description => "description",
            TodoSortField::Finished => "finished",
            TodoSortField::CreatedAt => "created_at",
            TodoSortField::UpdatedAt => "updated_at",
        }
    }
}

/// The direction in which a listing is ordered.
#[derive(Debug, Clone, Copy, PartialEq, Eq, Structural)]
pub enum SortDirection {
    Asc,
    Desc,
}

impl SortDirection {
    /// The direction's keyword in SQL.
    pub open spec fn sql_keyword(self) -> Seq<char> {
        match self {
            SortDirection::Asc => "ASC"@,
            SortDirection::Desc => "DESC"@,
        }
    }

    /// Returns the direction's keyword in SQL.
    pub fn as_sql(&self) -> (r: &'static str)
        ensures
            r@ == self.sql_keyword(),
    {
        match self {
            SortDirection::Asc => "ASC",
            SortDirection::Desc => "DESC",
        }
    }
}

/// Listing parameters that passed validation, with the row offset of the page.
#[derive(Debug)]
pub struct ValidatedTodoQuery {
    pub search: Option<String>,
    pub finished: Option<bool>,
    pub limit: i64,
    pub page: i64,
    pub offset: i64,
    pub sort_by: TodoSortField,
    pub order_by: SortDirection,
}

impl ValidatedTodoQuery {
    /// The page size is allowed, the page is at least the first, and the offset skips
    /// the pages before it.
    pub open spec fn is_consistent(&self) -> bool {
        &&& 1 <= self.limit <= MAX_LIMIT
        &&& self.page >= DEFAULT_PAGE
        &&& self.offset == (self.page - 1) * self.limit
    }
}

pub open spec fn limit_message() -> Seq<char> {
    "limit deve estar entre 1 e 100"@
}

pub open spec fn page_message() -> Seq<char> {
    "page deve ser maior ou igual a 1"@
}

pub open spec fn sort_by_message() -> Seq<char> {
    "sort_by deve ser um de: id, name, description, finished, created_at, updated_at"@
}

pub open spec fn order_by_message() -> Seq<char> {
    "order_by deve ser asc ou desc"@
}

pub open spec fn pagination_message() -> Seq<char> {
    "Combinacao de page e limit invalida"@
}

/// The page size asked for, or the default.
pub open spec fn effective_limit(limit: Option<i64>) -> i64 {
    match limit {
        Some(l) => l,
        None => DEFAULT_LIMIT,
    }
}

/// The page asked for, or the first.
pub open spec fn effective_page(page: Option<i64>) -> i64 {
    match page {
        Some(p) => p,
        None => DEFAULT_PAGE,
    }
}

/// The column that a trimmed `sort_by` value names; the empty value names `id`.
pub open spec fn sort_field_named(s: Seq<char>) -> Option<TodoSortField> {
    if s.len() == 0 || s == "id"@ {
        Some(TodoSortField::Id)
    } else if s == "name"@ {
        Some(TodoSortField::Name)
    } else if s == "description"@ {
        Some(TodoSortField::Description)
    } else if s == "finished"@ {
        Some(TodoSortField::Finished)
    } else if s == "created_at"@ {
        Some(TodoSortField::CreatedAt)
    } else if s == "updated_at"@ {
        Some(TodoSortField::UpdatedAt)
    } else {
        None
    }
}

/// The column chosen by a `sort_by` parameter, if it names one.
pub open spec fn sort_field_choice(sort_by: Option<Seq<char>>) -> Option<TodoSortField> {
    match sort_by {
        None => Some(TodoSortField::Id),
        Some(s) => sort_field_named(trimmed(s)),
    }
}

/// The direction that a trimmed `order_by` value names, ignoring ASCII case; the empty
/// value names ascending order.
pub open spec fn direction_named(s: Seq<char>) -> Option<SortDirection> {
    if s.len() == 0 || equal_ignoring_ascii_case(s, "asc"@) {
        Some(SortDirection::Asc)
    } else if equal_ignoring_ascii_case(s, "desc"@) {
        Some(SortDirection::Desc)
    } else {
        None
    }
}

/// The direction chosen by an `order_by` parameter, if it names one.
pub open spec fn direction_choice(order_by: Option<Seq<char>>) -> Option<SortDirection> {
    match order_by {
        None => Some(SortDirection::Asc),
        Some(s) => direction_named(trimmed(s)),
    }
}

/// The first rule that listing parameters break, if any.
pub open spec fn query_error(
    limit: Option<i64>,
    page: Option<i64>,
    sort_by: Option<Seq<char>>,
    order_by: Option<Seq<char>>,
) -> Option<ErrorView> {
    let l = effective_limit(limit);
    let p = effective_page(page);
    if !(1 <= l <= MAX_LIMIT) {
        Some(ErrorView::BadRequest(limit_message()))
    } else if p < DEFAULT_PAGE {
        Some(ErrorView::BadRequest(page_message()))
    } else if sort_field_choice(sort_by) is None {
        Some(ErrorView::BadRequest(sort_by_message()))
    } else if direction_choice(order_by) is None {
        Some(ErrorView::BadRequest(order_by_message()))
    } else if (p - 1) * l > i64::MAX {
        Some(ErrorView::BadRequest(pagination_message()))
    } else {
        None
    }
}

fn bad_request(message: &str) -> (e: ApiError)
    ensures
        e@ == ErrorView::BadRequest(message@),
{
    ApiError::BadRequest(message.to_owned())
}

fn parse_sort_field(sort_by: &Option<String>) -> (r: Option<TodoSortField>)
    ensures
        r == sort_field_choice(opt_text(*sort_by)),
{
    match sort_by {
        None => Some(TodoSortField::Id),
        Some(s) => {
            let t = trim(s.as_str());
            let t = t.as_str();
            if t.is_empty() || text_eq(t, "id") {
                Some(TodoSortField::Id)
            } else if text_eq(t, "name") {
                Some(TodoSortField::Name)
            } else if text_eq(t, "description") {
                Some(TodoSortField::Description)
            } else if text_eq(t, "finished") {
                Some(TodoSortField::Finished)
            } else if text_eq(t, "created_at") {
                Some(TodoSortField::CreatedAt)
            } else if text_eq(t, "updated_at") {
                Some(TodoSortField::UpdatedAt)
            } else {
                None
            }
        },
    }
}

fn parse_direction(order_by: &Option<String>) -> (r: Option<SortDirection>)
    ensures
        r == direction_choice(opt_text(*order_by)),
{
    match order_by {
        None => Some(SortDirection::Asc),
        Some(s) => {
            let t = trim(s.as_str());
            let t = t.as_str();
            if t.is_empty() || eq_ignore_ascii_case(t, "asc") {
                Some(SortDirection::Asc)
            } else if eq_ignore_ascii_case(t, "desc") {
                Some(SortDirection::Desc)
            } else {
                None
            }
        },
    }
}

/// Checks the listing parameters and computes the row offset of the page asked for.
pub fn validate_todo_query_params(params: TodoQueryParams) -> (r: ApiResult<ValidatedTodoQuery>)
    ensures
        error_of(r) == query_error(
            params.limit,
            params.page,
            opt_text(params.sort_by),
            opt_text(params.order_by),
        ),
        r matches Ok(q) ==> {
            &&& q.is_consistent()
            &&& q.search == params.search
            &&& q.finished == params.finished
            &&& q.limit == effective_limit(params.limit)
            &&& q.page == effective_page(params.page)
            &&& sort_field_choice(opt_text(params.sort_by)) == Some(q.sort_by)
            &&& direction_choice(opt_text(params.order_by)) == Some(q.order_by)
        },
{
    let limit = match params.limit {
        Some(l) => l,
        None => DEFAULT_LIMIT,
    };
    if !(1 <= limit && limit <= MAX_LIMIT) {
        return Err(bad_request("limit deve estar entre 1 e 100"));
    }
    let page = match params.page {
        Some(p) => p,
        None => DEFAULT_PAGE,
    };
    if page < DEFAULT_PAGE {
        return Err(bad_request("page deve ser maior ou igual a 1"));
    }
    let sort_by = match parse_sort_field(&params.sort_by) {
        Some(f) => f,
        None => {
            return Err(
                bad_request(
                    "sort_by deve ser um de: id, name, description, finished, created_at, updated_at",
                ),
            );
        },
    };
    let order_by = match parse_direction(&params.order_by) {
        Some(d) => d,
        None => {
            return Err(bad_request("order_by deve ser asc ou desc"));
        },
    };
    let offset = match page.checked_sub(1) {
        Some(page_index) => match page_index.checked_mul(limit) {
            Some(o) => o,
            None => {
                return Err(bad_request("Combinacao de page e limit invalida"));
            },
        },
        None => {
            return Err(bad_request("Combinacao de page e limit invalida"));
        },
    };
    Ok(
        ValidatedTodoQuery {
            search: params.search,
            finished: params.finished,
            limit,
            page,
            offset,
            sort_by,
            order_by,
        },
    )
}

/// The neighbouring pages of a listing page, given the number of matching todos:
/// a previous page unless this is the first, a next page while rows remain.
pub fn pagination_links(query: &ValidatedTodoQuery, total: i64) -> (r: (Option<i64>, Option<i64>))
    requires
        i64::MIN < query.page < i64::MAX,
        i64::MIN <= query.offset + query.limit <= i64::MAX,
    ensures
        r.0 == (if query.page > DEFAULT_PAGE { Some((query.page - 1) as i64) } else { None::<i64> }),
        r.1 == (if query.offset + query.limit < total { Some((query.page + 1) as i64) } else { None::<i64> }),
{
    let previous = query.page - 1;
    let following = query.page + 1;
    let prev = if query.page > DEFAULT_PAGE {
        Some(previous)
    } else {
        None
    };
    let next = if query.offset + query.limit < total {
        Some(following)
    } else {
        None
    };
    (prev, next)
}

} // verus!
