//! Properties that hold across the library's functions.
use vstd::prelude::*;

use crate::aggregate::{
    delete_outcome, patch_event_outcome, restore_outcome, update_outcome, EventView,
};
use crate::error::ErrorView;
use crate::query::{
    direction_choice, effective_limit, query_error, sort_field_choice,
    SortDirection, TodoSortField, ValidatedTodoQuery,
};
use crate::sql::{filter_arguments, items_arguments, BoundValue};
use crate::text::{equal_ignoring_ascii_case, is_white_space, trim_end, trim_start, trimmed};
use crate::todo::{no_field_message, opt_text, patch_outcome, todo_fields_outcome};

verus! {

proof fn lemma_trim_start_front(s: Seq<char>)
    ensures
        trim_start(s).len() > 0 ==> !is_white_space(trim_start(s)[0]),
        trim_start(s).len() <= s.len(),
        trim_start(s) == s.subrange(s.len() - trim_start(s).len(), s.len() as int),
    decreases s.len(),
{
    if s.len() > 0 && is_white_space(s[0]) {
        lemma_trim_start_front(s.drop_first());
        assert(s.drop_first().subrange(
            s.drop_first().len() - trim_start(s).len(),
            s.drop_first().len() as int,
        ) =~= s.subrange(s.len() - trim_start(s).len(), s.len() as int));
    } else {
        assert(s.subrange(0, s.len() as int) =~= s);
    }
}

proof fn lemma_trim_end_back(s: Seq<char>)
    ensures
        trim_end(s).len() > 0 ==> !is_white_space(trim_end(s).last()),
        trim_end(s).len() <= s.len(),
        trim_end(s) == s.subrange(0, trim_end(s).len() as int),
    decreases s.len(),
{
    if s.len() > 0 && is_white_space(s.last()) {
        lemma_trim_end_back(s.drop_last());
        assert(s.drop_last().subrange(0, trim_end(s).len() as int) =~= s.subrange(
            0,
            trim_end(s).len() as int,
        ));
    } else {
        assert(s.subrange(0, s.len() as int) =~= s);
    }
}

proof fn lemma_no_outer_white_space_is_fixed(s: Seq<char>)
    requires
        s.len() > 0 ==> !is_white_space(s[0]) && !is_white_space(s.last()),
    ensures
        trim_start(s) == s,
        trim_end(s) == s,
{
}

/// Trimmed text has no whitespace at either end.
pub proof fn law_trimmed_has_no_outer_white_space(s: Seq<char>)
    ensures
        trimmed(s).len() > 0 ==> !is_white_space(trimmed(s)[0]) && !is_white_space(
            trimmed(s).last(),
        ),
{
    let a = trim_start(s);
    lemma_trim_start_front(s);
    lemma_trim_end_back(a);
    if trimmed(s).len() > 0 {
        assert(trimmed(s)[0] == a[0]);
    }
}

/// Trimming twice trims no more than trimming once.
pub proof fn law_trim_is_idempotent(s: Seq<char>)
    ensures
        trimmed(trimmed(s)) == trimmed(s),
{
    law_trimmed_has_no_outer_white_space(s);
    lemma_no_outer_white_space_is_fixed(trimmed(s));
}

/// The name and description that validation hands back pass validation again unchanged.
pub proof fn law_validated_fields_are_stable(name: Seq<char>, description: Seq<char>)
    requires
        todo_fields_outcome(name, description) is Ok,
    ensures
        todo_fields_outcome(trimmed(name), trimmed(description)) == todo_fields_outcome(
            name,
            description,
        ),
{
    law_trim_is_idempotent(name);
    law_trim_is_idempotent(description);
}

/// A partial change that gives a name and a description accepts them exactly when a
/// full validation of the two does, and normalizes them the same way.
pub proof fn law_patch_fields_agree_with_full_validation(
    name: Seq<char>,
    description: Seq<char>,
    finished: Option<bool>,
)
    ensures
        (patch_outcome(Some(name), Some(description), finished) is Ok) == (todo_fields_outcome(
            name,
            description,
        ) is Ok),
        todo_fields_outcome(name, description) is Ok ==> patch_outcome(
            Some(name),
            Some(description),
            finished,
        ) == Ok::<(Option<Seq<char>>, Option<Seq<char>>, Option<bool>), crate::error::ErrorView>(
            (Some(trimmed(name)), Some(trimmed(description)), finished),
        ),
{
}

/// A patch that gives every field is handled as the update with those fields.
pub proof fn law_full_patch_is_update(
    id: i32,
    name: Seq<char>,
    description: Seq<char>,
    finished: bool,
    current_name: Seq<char>,
    current_description: Seq<char>,
    current_finished: bool,
)
    ensures
        patch_event_outcome(
            id,
            Some(name),
            Some(description),
            Some(finished),
            current_name,
            current_description,
            current_finished,
        ) == update_outcome(id, name, description, finished),
{
}

/// A patch that gives no field is handled as an update that rewrites the current fields.
pub proof fn law_empty_patch_keeps_current_fields(
    id: i32,
    current_name: Seq<char>,
    current_description: Seq<char>,
    current_finished: bool,
)
    ensures
        patch_event_outcome(
            id,
            None,
            None,
            None,
            current_name,
            current_description,
            current_finished,
        ) == update_outcome(id, current_name, current_description, current_finished),
{
}

/// Deletion and restoration accept the same ids.
pub proof fn law_delete_and_restore_accept_the_same_ids(id: i32)
    ensures
        (delete_outcome(id) is Ok) == (restore_outcome(id) is Ok),
{
}

/// Sorting by the SQL name of a column chooses that column.
pub proof fn law_sort_field_round_trip(field: TodoSortField)
    ensures
        sort_field_choice(Some(field.sql_name())) == Some(field),
{
    reveal_strlit("id");
    reveal_strlit("name");
    reveal_strlit("description");
    reveal_strlit("finished");
    reveal_strlit("created_at");
    reveal_strlit("updated_at");
    lemma_no_outer_white_space_is_fixed(field.sql_name());
}

/// Ordering by the SQL keyword of a direction, in either case, chooses that direction.
pub proof fn law_direction_round_trip(direction: SortDirection)
    ensures
        direction_choice(Some(direction.sql_keyword())) == Some(direction),
{
    reveal_strlit("ASC");
    reveal_strlit("DESC");
    reveal_strlit("asc");
    reveal_strlit("desc");
    lemma_no_outer_white_space_is_fixed(direction.sql_keyword());
    let k = direction.sql_keyword();
    match direction {
        SortDirection::Asc => {
            assert(k[0] == 'A' && k[1] == 'S' && k[2] == 'C');
        },
        SortDirection::Desc => {
            assert(k[0] == 'D' && k[1] == 'E' && k[2] == 'S' && k[3] == 'C');
        },
    }
}

/// Consecutive pages of a listing are adjacent: the next page starts where this one ends.
pub proof fn law_consecutive_pages_are_adjacent(limit: i64, page: i64)
    requires
        query_error(Some(limit), Some(page), None, None) is None,
        query_error(Some(limit), Some((page + 1) as i64), None, None) is None,
        page < i64::MAX,
    ensures
        (page + 1 - 1) * effective_limit(Some(limit)) == (page - 1) * effective_limit(Some(limit))
            + effective_limit(Some(limit)),
{
    assert((page + 1 - 1) * limit == (page - 1) * limit + limit) by (nonlinear_arith);
}

/// The page query binds the very values that the count query binds, before its limit
/// and offset, so the total counts the rows that pages are drawn from.
pub proof fn law_page_and_count_share_filter(query: ValidatedTodoQuery)
    ensures
        items_arguments(query).len() == filter_arguments(query.finished, opt_text(query.search)).len()
            + 2,
        items_arguments(query).take(
            filter_arguments(query.finished, opt_text(query.search)).len() as int,
        ) == filter_arguments(query.finished, opt_text(query.search)),
        items_arguments(query).last() == BoundValue::Integer(query.offset),
{
    assert(items_arguments(query).take(
        filter_arguments(query.finished, opt_text(query.search)).len() as int,
    ) =~= filter_arguments(query.finished, opt_text(query.search)));
}

/// The page query binds the validated page size to its `LIMIT` placeholder and the row
/// offset to its `OFFSET` placeholder, after the values of the restriction.
pub proof fn law_page_query_binds_limit_then_offset(query: ValidatedTodoQuery)
    ensures
        items_arguments(query) == filter_arguments(query.finished, opt_text(query.search)) + seq![
            BoundValue::Integer(query.limit),
            BoundValue::Integer(query.offset),
        ],
        items_arguments(query)[items_arguments(query).len() - 2] == BoundValue::Integer(query.limit),
        items_arguments(query).last() == BoundValue::Integer(query.offset),
{
    assert(items_arguments(query) =~= filter_arguments(query.finished, opt_text(query.search))
        + seq![BoundValue::Integer(query.limit), BoundValue::Integer(query.offset)]);
}

/// A search term that is not blank is looked for as a substring: both name and
/// description are matched against `%`, the trimmed term, `%`. A blank term adds no
/// condition.
pub proof fn law_search_matches_substrings(finished: Option<bool>, search: Seq<char>)
    ensures
        trimmed(search).len() > 0 ==> ({
            let a = filter_arguments(finished, Some(search));
            &&& a.len() >= 2
            &&& a[a.len() - 2] == BoundValue::Text(seq!['%'] + trimmed(search) + seq!['%'])
            &&& a.last() == BoundValue::Text(seq!['%'] + trimmed(search) + seq!['%'])
            &&& a.drop_last().drop_last() == filter_arguments(finished, None)
        }),
        trimmed(search).len() == 0 ==> filter_arguments(finished, Some(search)) == filter_arguments(
            finished,
            None,
        ),
{
    reveal_strlit("%");
    assert("%"@ =~= seq!['%']);
    let a = filter_arguments(finished, Some(search));
    if trimmed(search).len() > 0 {
        assert(a.drop_last().drop_last() =~= filter_arguments(finished, None));
    } else {
        assert(a =~= filter_arguments(finished, None));
    }
}

/// `order_by` names a direction up to ASCII case and surrounding whitespace: any spelling
/// of `asc` orders ascending, any spelling of `desc` descending, and a blank value
/// ascending.
pub proof fn law_order_by_ignores_ascii_case(order_by: Seq<char>)
    ensures
        equal_ignoring_ascii_case(trimmed(order_by), "asc"@) ==> direction_choice(Some(order_by))
            == Some(SortDirection::Asc),
        equal_ignoring_ascii_case(trimmed(order_by), "desc"@) ==> direction_choice(Some(order_by))
            == Some(SortDirection::Desc),
        trimmed(order_by).len() == 0 ==> direction_choice(Some(order_by)) == Some(
            SortDirection::Asc,
        ),
{
    reveal_strlit("asc");
    reveal_strlit("desc");
}

/// Every three-letter spelling of `asc` with each letter in either case, such as `asc`,
/// `Asc` or `ASC`, orders ascending.
pub proof fn law_any_case_of_asc_is_ascending(order_by: Seq<char>)
    requires
        order_by.len() == 3,
        order_by[0] == 'a' || order_by[0] == 'A',
        order_by[1] == 's' || order_by[1] == 'S',
        order_by[2] == 'c' || order_by[2] == 'C',
    ensures
        direction_choice(Some(order_by)) == Some(SortDirection::Asc),
{
    reveal_strlit("asc");
    lemma_no_outer_white_space_is_fixed(order_by);
    assert(equal_ignoring_ascii_case(order_by, "asc"@));
}

/// Every four-letter spelling of `desc` with each letter in either case orders
/// descending.
pub proof fn law_any_case_of_desc_is_descending(order_by: Seq<char>)
    requires
        order_by.len() == 4,
        order_by[0] == 'd' || order_by[0] == 'D',
        order_by[1] == 'e' || order_by[1] == 'E',
        order_by[2] == 's' || order_by[2] == 'S',
        order_by[3] == 'c' || order_by[3] == 'C',
    ensures
        direction_choice(Some(order_by)) == Some(SortDirection::Desc),
{
    reveal_strlit("asc");
    reveal_strlit("desc");
    lemma_no_outer_white_space_is_fixed(order_by);
    assert(equal_ignoring_ascii_case(order_by, "desc"@));
}

/// Patching yields an update of the same todo in which each field that the patch gives
/// replaces the current one, independently of the others: the done flag is the one
/// given, else the current one, and the texts are the given ones, else the current
/// ones, trimmed. Whether the patch is accepted does not depend on the done flag.
pub proof fn law_patch_fields_override_current(
    id: i32,
    name: Option<Seq<char>>,
    description: Option<Seq<char>>,
    finished: Option<bool>,
    current_name: Seq<char>,
    current_description: Seq<char>,
    current_finished: bool,
)
    ensures
        ({
            let r = patch_event_outcome(
                id,
                name,
                description,
                finished,
                current_name,
                current_description,
                current_finished,
            );
            r is Ok ==> {
                &&& r->Ok_0 is TodoUpdated
                &&& r->Ok_0->TodoUpdated_id == id
                &&& r->Ok_0->TodoUpdated_finished == (if finished is Some {
                    finished->0
                } else {
                    current_finished
                })
                &&& r->Ok_0->TodoUpdated_name == trimmed(
                    if name is Some {
                        name->0
                    } else {
                        current_name
                    },
                )
                &&& r->Ok_0->TodoUpdated_description == trimmed(
                    if description is Some {
                        description->0
                    } else {
                        current_description
                    },
                )
            }
        }),
        (patch_event_outcome(
            id,
            name,
            description,
            finished,
            current_name,
            current_description,
            current_finished,
        ) is Ok) == (patch_event_outcome(
            id,
            name,
            description,
            None,
            current_name,
            current_description,
            current_finished,
        ) is Ok),
{
}

/// A partial change is refused as empty exactly when it gives no field at all; one that
/// only sets the done flag is accepted as it is.
pub proof fn law_patch_empty_only_without_fields(
    name: Option<Seq<char>>,
    description: Option<Seq<char>>,
    finished: Option<bool>,
)
    ensures
        (patch_outcome(name, description, finished) == Err::<
            (Option<Seq<char>>, Option<Seq<char>>, Option<bool>),
            ErrorView,
        >(ErrorView::BadRequest(no_field_message()))) == (name is None && description is None
            && finished is None),
        finished is Some ==> patch_outcome(None, None, finished) == Ok::<
            (Option<Seq<char>>, Option<Seq<char>>, Option<bool>),
            ErrorView,
        >((None, None, finished)),
{
    reveal_strlit("Pelo menos um campo deve ser informado");
    reveal_strlit("O nome deve ter no minimo 3 caracteres");
    reveal_strlit("Nome nao pode ser vazio");
    reveal_strlit("Descricao nao pode ser vazia");
    assert(no_field_message()[0] == 'P');
    assert(crate::todo::short_name_message()[0] == 'O');
    assert(crate::todo::empty_name_message()[0] == 'N');
    assert(crate::todo::empty_description_message()[0] == 'D');
}

} // verus!
