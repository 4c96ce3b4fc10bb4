//! Commands on todos and the events that accepting them yields.
use vstd::prelude::*;

use crate::error::{ApiError, ApiResult, ErrorView};
use crate::todo::{todo_fields_outcome, validate_todo_fields, Todo};

verus! {

/// Create a todo.
#[derive(Debug, Clone)]
pub struct CreateTodoCommand {
    pub name: String,
    pub description: String,
    pub finished: bool,
}

/// Replace every field of todo `id`.
pub struct UpdateTodoCommand {
    pub id: i32,
    pub name: String,
    pub description: String,
    pub finished: bool,
}

/// Replace the given fields of todo `id`.
pub struct PatchTodoCommand {
    pub id: i32,
    pub name: Option<String>,
    pub description: Option<String>,
    pub finished: Option<bool>,
}

/// Delete todo `id`.
pub struct DeleteTodoCommand {
    pub id: i32,
}

/// Bring back the deleted todo `id`.
pub struct RestoreTodoCommand {
    pub id: i32,
}

/// What an accepted command does to the store.
#[derive(Debug, Clone)]
pub enum TodoEvent {
    TodoCreated { name: String, description: String, finished: bool },
    TodoUpdated { id: i32, name: String, description: String, finished: bool },
    TodoPatched { id: i32, name: String, description: String, finished: bool },
    TodoDeleted { id: i32 },
    TodoRestored { id: i32 },
}

/// What a contract can see of a [`TodoEvent`].
pub enum EventView {
    TodoCreated { name: Seq<char>, description: Seq<char>, finished: bool },
    TodoUpdated { id: i32, name: Seq<char>, description: Seq<char>, finished: bool },
    TodoPatched { id: i32, name: Seq<char>, description: Seq<char>, finished: bool },
    TodoDeleted { id: i32 },
    TodoRestored { id: i32 },
}

impl View for TodoEvent {
    type V = EventView;

    open spec fn view(&self) -> EventView {
        match self {
            TodoEvent::TodoCreated { name, description, finished } => EventView::TodoCreated {
                name: name@,
                description: description@,
                finished: *finished,
            },
            TodoEvent::TodoUpdated { id, name, description, finished } => EventView::TodoUpdated {
                id: *id,
                name: name@,
                description: description@,
                finished: *finished,
            },
            TodoEvent::TodoPatched { id, name, description, finished } => EventView::TodoPatched {
                id: *id,
                name: name@,
                description: description@,
                finished: *finished,
            },
            TodoEvent::TodoDeleted { id } => EventView::TodoDeleted { id: *id },
            TodoEvent::TodoRestored { id } => EventView::TodoRestored { id: *id },
        }
    }
}

/// The view of the result of handling a command.
pub open spec fn event_view(r: ApiResult<TodoEvent>) -> Result<EventView, ErrorView> {
    match r {
        Ok(e) => Ok(e@),
        Err(e) => Err(e@),
    }
}

/// Creating a todo with these fields: the created event with the validated fields.
pub open spec fn create_outcome(name: Seq<char>, description: Seq<char>, finished: bool) -> Result<
    EventView,
    ErrorView,
> {
    match todo_fields_outcome(name, description) {
        Ok((n, d)) => Ok(EventView::TodoCreated { name: n, description: d, finished }),
        Err(e) => Err(e),
    }
}

/// Updating todo `id` with these fields: the updated event with the validated fields.
pub open spec fn update_outcome(id: i32, name: Seq<char>, description: Seq<char>, finished: bool) -> Result<
    EventView,
    ErrorView,
> {
    match todo_fields_outcome(name, description) {
        Ok((n, d)) => Ok(EventView::TodoUpdated { id, name: n, description: d, finished }),
        Err(e) => Err(e),
    }
}

/// Patching todo `id` whose current fields are given: the fields left out keep their
/// current values, and the result is validated as an update.
pub open spec fn patch_event_outcome(
    id: i32,
    name: Option<Seq<char>>,
    description: Option<Seq<char>>,
    finished: Option<bool>,
    current_name: Seq<char>,
    current_description: Seq<char>,
    current_finished: bool,
) -> Result<EventView, ErrorView> {
    update_outcome(
        id,
        match name {
            Some(n) => n,
            None => current_name,
        },
        match description {
            Some(d) => d,
            None => current_description,
        },
        match finished {
            Some(f) => f,
            None => current_finished,
        },
    )
}

pub open spec fn invalid_id_message() -> Seq<char> {
    "ID inválido"@
}

/// Deleting todo `id`: accepted exactly for positive ids.
pub open spec fn delete_outcome(id: i32) -> Result<EventView, ErrorView> {
    if id <= 0 {
        Err(ErrorView::BadRequest(invalid_id_message()))
    } else {
        Ok(EventView::TodoDeleted { id })
    }
}

/// Restoring todo `id`: accepted exactly for positive ids.
pub open spec fn restore_outcome(id: i32) -> Result<EventView, ErrorView> {
    if id <= 0 {
        Err(ErrorView::BadRequest(invalid_id_message()))
    } else {
        Ok(EventView::TodoRestored { id })
    }
}

/// Decides commands on todos.
pub struct TodoAggregate;

impl TodoAggregate {
    /// Accepts a creation whose fields are valid.
    pub fn handle_create(command: CreateTodoCommand) -> (r: ApiResult<TodoEvent>)
        ensures
            event_view(r) == create_outcome(command.name@, command.description@, command.finished),
    {
        let (name, description) = match validate_todo_fields(command.name, command.description) {
            Ok(fields) => fields,
            Err(e) => {
                return Err(e);
            },
        };
        Ok(TodoEvent::TodoCreated { name, description, finished: command.finished })
    }

    /// Accepts an update whose fields are valid.
    pub fn handle_update(command: UpdateTodoCommand) -> (r: ApiResult<TodoEvent>)
        ensures
            event_view(r) == update_outcome(
                command.id,
                command.name@,
                command.description@,
                command.finished,
            ),
    {
        let (name, description) = match validate_todo_fields(command.name, command.description) {
            Ok(fields) => fields,
            Err(e) => {
                return Err(e);
            },
        };
        Ok(TodoEvent::TodoUpdated { id: command.id, name, description, finished: command.finished })
    }

    /// Merges a partial change into the current todo and accepts the result as an
    /// update when its fields are valid.
    pub fn handle_patch(command: PatchTodoCommand, current: Todo) -> (r: ApiResult<TodoEvent>)
        ensures
            event_view(r) == patch_event_outcome(
                command.id,
                crate::todo::opt_text(command.name),
                crate::todo::opt_text(command.description),
                command.finished,
                current.name@,
                current.description@,
                current.finished,
            ),
    {
        let name = match command.name {
            Some(n) => n,
            None => current.name,
        };
        let description = match command.description {
            Some(d) => d,
            None => current.description,
        };
        let finished = match command.finished {
            Some(f) => f,
            None => current.finished,
        };
        let (name, description) = match validate_todo_fields(name, description) {
            Ok(fields) => fields,
            Err(e) => {
                return Err(e);
            },
        };
        Ok(TodoEvent::TodoUpdated { id: command.id, name, description, finished })
    }

    /// Accepts the deletion of a todo with a positive id.
    pub fn handle_delete(command: DeleteTodoCommand) -> (r: ApiResult<TodoEvent>)
        ensures
            event_view(r) == delete_outcome(command.id),
    {
        if command.id <= 0 {
            return Err(ApiError::BadRequest("ID inválido".to_owned()));
        }
        Ok(TodoEvent::TodoDeleted { id: command.id })
    }

    /// Accepts the restoration of a todo with a positive id.
    pub fn handle_restore(command: RestoreTodoCommand) -> (r: ApiResult<TodoEvent>)
        ensures
            event_view(r) == restore_outcome(command.id),
    {
        if command.id <= 0 {
            return Err(ApiError::BadRequest("ID inválido".to_owned()));
        }
        Ok(TodoEvent::TodoRestored { id: command.id })
    }
}

} // verus!
