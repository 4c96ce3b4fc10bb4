//! Todos and the rules that their fields obey.
use vstd::prelude::*;
use vstd::utf8::encode_utf8;

use crate::error::{protocol_error, protocol_error_value, ApiError, ApiResult, ErrorView};
use crate::text::{decimal, decimal_string, trim, trimmed};

verus! {

/// A point in time as whole seconds since the Unix epoch and the nanoseconds past
/// that second; it orders as the pair `(seconds, nanos)` does.
#[derive(Debug, Clone, Copy, PartialEq, Eq, Structural)]
pub struct Timestamp {
    pub seconds: i64,
    pub nanos: u32,
}

impl Timestamp {
    /// `self` lies strictly before `other`.
    pub open spec fn precedes(self, other: Timestamp) -> bool {
        self.seconds < other.seconds || (self.seconds == other.seconds && self.nanos < other.nanos)
    }

    /// Checks whether `self` lies strictly before `other`.
    pub fn is_before(&self, other: &Timestamp) -> (r: bool)
        ensures
            r == self.precedes(*other),
    {
        self.seconds < other.seconds || (self.seconds == other.seconds && self.nanos < other.nanos)
    }
}

/// A stored todo.
#[derive(Debug)]
pub struct Todo {
    pub id: i32,
    pub name: String,
    pub description: String,
    pub finished: bool,
    pub created_at: Timestamp,
    pub updated_at: Timestamp,
    pub deleted_at: Option<Timestamp>,
}

/// A partial change of a todo, as the client sent it.
#[derive(Debug)]
pub struct PatchTodo {
    pub name: Option<String>,
    pub description: Option<String>,
    pub finished: Option<bool>,
}

/// A partial change whose given fields have been validated and trimmed.
#[derive(Debug)]
pub struct NormalizedPatchTodo {
    pub name: Option<String>,
    pub description: Option<String>,
    pub finished: Option<bool>,
}

/// The view of an optional string.
pub open spec fn opt_text(o: Option<String>) -> Option<Seq<char>> {
    match o {
        Some(s) => Some(s@),
        None => None,
    }
}

/// The number of bytes of the UTF-8 encoding of `s`.
pub open spec fn byte_len(s: Seq<char>) -> nat {
    encode_utf8(s).len()
}

pub open spec fn empty_name_message() -> Seq<char> {
    "Nome nao pode ser vazio"@
}

pub open spec fn empty_description_message() -> Seq<char> {
    "Descricao nao pode ser vazia"@
}

pub open spec fn short_name_message() -> Seq<char> {
    "O nome deve ter no minimo 3 caracteres"@
}

pub open spec fn no_field_message() -> Seq<char> {
    "Pelo menos um campo deve ser informado"@
}

pub open spec fn timestamps_message() -> Seq<char> {
    "updated_at veio anterior a created_at"@
}

/// The error that reports a todo updated before it was created: the database protocol
/// error carrying [`timestamps_message`].
pub open spec fn timestamps_error_value() -> ApiError {
    ApiError::Database(protocol_error_value(timestamps_message()))
}

/// The message of a lookup of todo `id` that found nothing.
pub open spec fn not_found_message(id: int) -> Seq<char> {
    "Todo "@ + decimal(id) + " nao encontrado"@
}

/// The fewest bytes that a name may have once trimmed.
pub open spec fn min_name_bytes() -> nat {
    3
}

/// What validating a name and a description gives: both trimmed, or the first failed rule.
pub open spec fn todo_fields_outcome(name: Seq<char>, description: Seq<char>) -> Result<
    (Seq<char>, Seq<char>),
    ErrorView,
> {
    let n = trimmed(name);
    let d = trimmed(description);
    if n.len() == 0 {
        Err(ErrorView::BadRequest(empty_name_message()))
    } else if d.len() == 0 {
        Err(ErrorView::BadRequest(empty_description_message()))
    } else if byte_len(n) < min_name_bytes() {
        Err(ErrorView::BadRequest(short_name_message()))
    } else {
        Ok((n, d))
    }
}

/// The view of the result of validating a pair of fields.
pub open spec fn fields_view(r: ApiResult<(String, String)>) -> Result<
    (Seq<char>, Seq<char>),
    ErrorView,
> {
    match r {
        Ok((a, b)) => Ok((a@, b@)),
        Err(e) => Err(e@),
    }
}

/// What validating a lone name gives: the trimmed name, or the first failed rule.
pub open spec fn single_field_outcome(name: Seq<char>) -> Result<Seq<char>, ErrorView> {
    let n = trimmed(name);
    if n.len() == 0 {
        Err(ErrorView::BadRequest(empty_name_message()))
    } else if byte_len(n) < min_name_bytes() {
        Err(ErrorView::BadRequest(short_name_message()))
    } else {
        Ok(n)
    }
}

/// The view of the result of validating one field.
pub open spec fn field_view(r: ApiResult<String>) -> Result<Seq<char>, ErrorView> {
    match r {
        Ok(a) => Ok(a@),
        Err(e) => Err(e@),
    }
}

/// What validating a partial change gives.
pub open spec fn patch_outcome(
    name: Option<Seq<char>>,
    description: Option<Seq<char>>,
    finished: Option<bool>,
) -> Result<(Option<Seq<char>>, Option<Seq<char>>, Option<bool>), ErrorView> {
    if name is None && description is None && finished is None {
        Err(ErrorView::BadRequest(no_field_message()))
    } else if name is Some && single_field_outcome(name->0) is Err {
        Err(single_field_outcome(name->0)->Err_0)
    } else if description is Some && trimmed(description->0).len() == 0 {
        Err(ErrorView::BadRequest(empty_description_message()))
    } else {
        Ok(
            (
                match name {
                    Some(n) => Some(trimmed(n)),
                    None => None,
                },
                match description {
                    Some(d) => Some(trimmed(d)),
                    None => None,
                },
                finished,
            ),
        )
    }
}

/// The view of the result of validating a partial change.
pub open spec fn patch_view(r: ApiResult<NormalizedPatchTodo>) -> Result<
    (Option<Seq<char>>, Option<Seq<char>>, Option<bool>),
    ErrorView,
> {
    match r {
        Ok(p) => Ok((opt_text(p.name), opt_text(p.description), p.finished)),
        Err(e) => Err(e@),
    }
}

proof fn lemma_byte_len_bounds(s: Seq<char>)
    ensures
        s.len() <= byte_len(s) <= 4 * s.len(),
    decreases s.len(),
{
    if s.len() > 0 {
        lemma_byte_len_bounds(s.drop_first());
    }
}

/// Checks whether the UTF-8 encoding of `s` has at least three bytes.
fn has_min_name_bytes(s: &str) -> (r: bool)
    ensures
        r == (byte_len(s@) >= min_name_bytes()),
{
    proof {
        lemma_byte_len_bounds(s@);
    }
    if s.unicode_len() >= 3 {
        true
    } else {
        s.len() >= 3
    }
}

fn bad_request(message: &str) -> (e: ApiError)
    ensures
        e@ == ErrorView::BadRequest(message@),
{
    ApiError::BadRequest(message.to_owned())
}

/// Trims a name and a description and checks that both are present and that the
/// name has at least three bytes.
pub fn validate_todo_fields(name: String, description: String) -> (r: ApiResult<(String, String)>)
    ensures
        fields_view(r) == todo_fields_outcome(name@, description@),
{
    let name = trim(name.as_str());
    let description = trim(description.as_str());
    if name.as_str().is_empty() {
        return Err(bad_request("Nome nao pode ser vazio"));
    }
    if description.as_str().is_empty() {
        return Err(bad_request("Descricao nao pode ser vazia"));
    }
    if !has_min_name_bytes(name.as_str()) {
        return Err(bad_request("O nome deve ter no minimo 3 caracteres"));
    }
    Ok((name, description))
}

/// Trims a name and checks that it is present and has at least three bytes.
pub fn validate_single_todo_field(name: String) -> (r: ApiResult<String>)
    ensures
        field_view(r) == single_field_outcome(name@),
{
    let name = trim(name.as_str());
    if name.as_str().is_empty() {
        return Err(bad_request("Nome nao pode ser vazio"));
    }
    if !has_min_name_bytes(name.as_str()) {
        return Err(bad_request("O nome deve ter no minimo 3 caracteres"));
    }
    Ok(name)
}

/// Checks a partial change: at least one field given, and each given text field valid.
pub fn validate_patch_todo_fields(payload: PatchTodo) -> (r: ApiResult<NormalizedPatchTodo>)
    ensures
        patch_view(r) == patch_outcome(
            opt_text(payload.name),
            opt_text(payload.description),
            payload.finished,
        ),
{
    if payload.name.is_none() && payload.description.is_none() && payload.finished.is_none() {
        return Err(bad_request("Pelo menos um campo deve ser informado"));
    }
    let name = match payload.name {
        Some(name) => match validate_single_todo_field(name) {
            Ok(n) => Some(n),
            Err(e) => {
                return Err(e);
            },
        },
        None => None,
    };
    let description = match payload.description {
        Some(description) => {
            let description = trim(description.as_str());
            if description.as_str().is_empty() {
                return Err(bad_request("Descricao nao pode ser vazia"));
            }
            Some(description)
        },
        None => None,
    };
    Ok(NormalizedPatchTodo { name, description, finished: payload.finished })
}

impl Todo {
    /// The todo was not updated before it was created.
    pub open spec fn timestamps_consistent(&self) -> bool {
        !self.updated_at.precedes(self.created_at)
    }
}

/// The database error reporting a todo updated before it was created.
fn timestamps_error() -> (e: ApiError)
    ensures
        e == timestamps_error_value(),
{
    ApiError::Database(protocol_error("updated_at veio anterior a created_at".to_owned()))
}

/// Rejects a stored todo whose last update lies before its creation.
pub fn validate_todo_timestamps(todo: Todo) -> (r: ApiResult<Todo>)
    ensures
        !todo.timestamps_consistent() ==> r == Err::<Todo, ApiError>(timestamps_error_value()),
        todo.timestamps_consistent() ==> r == Ok::<Todo, ApiError>(todo),
{
    if todo.updated_at.is_before(&todo.created_at) {
        return Err(timestamps_error());
    }
    Ok(todo)
}

/// Rejects a page of stored todos when any of them was updated before it was created.
pub fn validate_todo_list(items: Vec<Todo>) -> (r: ApiResult<Vec<Todo>>)
    ensures
        (r is Ok) == (forall|i: int| 0 <= i < items@.len() ==> (#[trigger] items@[i]).timestamps_consistent()),
        r matches Ok(v) ==> v@ == items@,
        r matches Err(e) ==> e == timestamps_error_value(),
{
    let mut i: usize = 0;
    while i < items.len()
        invariant
            i <= items@.len(),
            forall|k: int| 0 <= k < i ==> (#[trigger] items@[k]).timestamps_consistent(),
        decreases items@.len() - i,
    {
        if items[i].updated_at.is_before(&items[i].created_at) {
            return Err(timestamps_error());
        }
        i = i + 1;
    }
    Ok(items)
}

/// The not-found error for todo `id`.
pub fn not_found(id: i32) -> (e: ApiError)
    ensures
        e@ == ErrorView::NotFound(not_found_message(id as int)),
{
    let mut message = "Todo ".to_owned();
    let digits = decimal_string(id);
    message.append(digits.as_str());
    message.append(" nao encontrado");
    ApiError::NotFound(message)
}

/// Turns the outcome of looking up todo `id` into the todo, or a not-found error when
/// nothing was found, or the timestamp error when the stored todo is inconsistent.
pub fn found_todo(id: i32, found: Option<Todo>) -> (r: ApiResult<Todo>)
    ensures
        found is None ==> (r matches Err(e) && e@ == ErrorView::NotFound(not_found_message(id as int))),
        found matches Some(t) ==> (!t.timestamps_consistent() ==> r == Err::<Todo, ApiError>(
            timestamps_error_value(),
        )),
        found matches Some(t) ==> (t.timestamps_consistent() ==> r == Ok::<Todo, ApiError>(t)),
{
    match found {
        Some(todo) => validate_todo_timestamps(todo),
        None => Err(not_found(id)),
    }
}

/// Checks that a write to todo `id` touched a row: none touched means the todo is missing.
pub fn ensure_rows_affected(id: i32, rows_affected: u64) -> (r: ApiResult<()>)
    ensures
        rows_affected == 0 <==> r is Err,
        r matches Err(e) ==> e@ == ErrorView::NotFound(not_found_message(id as int)),
{
    if rows_affected == 0 {
        return Err(not_found(id));
    }
    Ok(())
}

} // verus!
