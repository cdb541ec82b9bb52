//! The task routes.
//!
//! Each function takes what the service call of its route came back with and
//! gives the reply. A record goes out without its instants.

use crate::domain::models::todo::{Todo, TodoView};
use crate::domain::repositories::error::StoreError;
use crate::presentation::response::{Body, Reply, Status};
use vstd::prelude::*;
use vstd::std_specs::convert::FromSpecImpl;

verus! {

pub const TODO_NOT_FOUND: &'static str = "Todo not found";

pub const FAILED_TO_FETCH_TODOS: &'static str = "Failed to fetch todos";

pub const FAILED_TO_FETCH_TODO: &'static str = "Failed to fetch todo";

pub const FAILED_TO_CREATE_TODO: &'static str = "Failed to create todo";

pub const FAILED_TO_UPDATE_TODO: &'static str = "Failed to update todo";

pub const FAILED_TO_DELETE_TODO: &'static str = "Failed to delete todo";

/// The body of a request to create a task.
#[derive(Debug, Clone, PartialEq, Eq)]
pub struct CreateTodoRequest {
    pub title: String,
    pub description: String,
}

/// The body of a request to update a task. All three fields are required:
/// an update replaces them all.
#[derive(Debug, Clone, PartialEq, Eq)]
pub struct UpdateTodoRequest {
    pub title: String,
    pub description: String,
    pub completed: bool,
}

/// A task on the wire.
#[derive(Debug, Clone, PartialEq, Eq)]
pub struct TodoResponse {
    pub id: u128,
    pub title: String,
    pub description: Option<String>,
    pub completed: bool,
}

/// A task on the wire, as contracts speak of it.
pub struct TodoResponseView {
    pub id: u128,
    pub title: Seq<char>,
    pub description: Option<Seq<char>>,
    pub completed: bool,
}

impl View for TodoResponse {
    type V = TodoResponseView;

    open spec fn view(&self) -> TodoResponseView {
        TodoResponseView {
            id: self.id,
            title: self.title@,
            description: match self.description {
                Some(text) => Some(text@),
                None => None,
            },
            completed: self.completed,
        }
    }
}

/// The wire form of `todo`: its identity, texts and flag.
pub open spec fn response_of(todo: TodoView) -> TodoResponseView {
    TodoResponseView {
        id: todo.id,
        title: todo.title,
        description: todo.description,
        completed: todo.completed,
    }
}

impl From<Todo> for TodoResponse {
    /// The wire form of a task: what [`response_of`] names, and nothing of
    /// its instants.
    fn from(todo: Todo) -> (response: TodoResponse)
        ensures
            response@ == response_of(todo@),
    {
        TodoResponse {
            id: todo.id,
            title: todo.title,
            description: todo.description,
            completed: todo.completed,
        }
    }
}

impl FromSpecImpl<Todo> for TodoResponse {
    open spec fn obeys_from_spec() -> bool {
        true
    }

    open spec fn from_spec(todo: Todo) -> TodoResponse {
        TodoResponse {
            id: todo.id,
            title: todo.title,
            description: todo.description,
            completed: todo.completed,
        }
    }
}

/// The reply to a listing: `200` with every task in its wire form, in the
/// order in which the service gave them, or `500` if the service failed.
pub fn get_all_todos(outcome: Result<Vec<Todo>, StoreError>) -> (reply: Reply<TodoResponse>)
    ensures
        match outcome {
            Ok(todos) => {
                &&& reply.status == Status::Success
                &&& reply.body matches Body::Many(listed)
                &&& listed@.len() == todos@.len()
                &&& forall|i: int|
                    0 <= i < todos@.len() ==> (#[trigger] listed@[i])@ == response_of(todos@[i]@)
            },
            Err(_) => reply.says(Status::InternalServerError, FAILED_TO_FETCH_TODOS@),
        },
{
    match outcome {
        Ok(todos) => {
            let mut listed: Vec<TodoResponse> = Vec::new();
            let mut i: usize = 0;
            while i < todos.len()
                invariant
                    i <= todos@.len(),
                    listed@.len() == i,
                    forall|k: int|
                        0 <= k < i ==> (#[trigger] listed@[k])@ == response_of(todos@[k]@),
                decreases todos@.len() - i,
            {
                let todo = todos[i].duplicate();
                listed.push(TodoResponse::from(todo));
                i += 1;
            }
            Reply { status: Status::Success, body: Body::Many(listed) }
        },
        Err(_) => Reply {
            status: Status::InternalServerError,
            body: Body::Message(FAILED_TO_FETCH_TODOS),
        },
    }
}

/// The reply to fetching one task: `200` with the task, `404` if there is
/// none, `500` if the service failed.
pub fn get_todo_by_id(outcome: Result<Option<Todo>, StoreError>) -> (reply: Reply<TodoResponse>)
    ensures
        match outcome {
            Ok(Some(todo)) => {
                &&& reply.status == Status::Success
                &&& reply.body matches Body::One(response)
                &&& response@ == response_of(todo@)
            },
            Ok(None) => reply.says(Status::NotFound, TODO_NOT_FOUND@),
            Err(_) => reply.says(Status::InternalServerError, FAILED_TO_FETCH_TODO@),
        },
{
    match outcome {
        Ok(Some(todo)) => Reply { status: Status::Success, body: Body::One(TodoResponse::from(todo)) },
        Ok(None) => Reply { status: Status::NotFound, body: Body::Message(TODO_NOT_FOUND) },
        Err(_) => Reply {
            status: Status::InternalServerError,
            body: Body::Message(FAILED_TO_FETCH_TODO),
        },
    }
}

/// The reply to a create: `201` with the task, or `500` whatever the failure.
pub fn create_todo(outcome: Result<Todo, StoreError>) -> (reply: Reply<TodoResponse>)
    ensures
        match outcome {
            Ok(todo) => {
                &&& reply.status == Status::Created
                &&& reply.body matches Body::One(response)
                &&& response@ == response_of(todo@)
            },
            Err(_) => reply.says(Status::InternalServerError, FAILED_TO_CREATE_TODO@),
        },
{
    match outcome {
        Ok(todo) => Reply { status: Status::Created, body: Body::One(TodoResponse::from(todo)) },
        Err(_) => Reply {
            status: Status::InternalServerError,
            body: Body::Message(FAILED_TO_CREATE_TODO),
        },
    }
}

/// The reply to an update: `200` with the task as it is now, `404` if no row
/// has the identity, `500` for any other failure.
pub fn update_todo(outcome: Result<Todo, StoreError>) -> (reply: Reply<TodoResponse>)
    ensures
        match outcome {
            Ok(todo) => {
                &&& reply.status == Status::Success
                &&& reply.body matches Body::One(response)
                &&& response@ == response_of(todo@)
            },
            Err(StoreError::RowNotFound) => reply.says(Status::NotFound, TODO_NOT_FOUND@),
            Err(_) => reply.says(Status::InternalServerError, FAILED_TO_UPDATE_TODO@),
        },
{
    match outcome {
        Ok(todo) => Reply { status: Status::Success, body: Body::One(TodoResponse::from(todo)) },
        Err(StoreError::RowNotFound) => Reply {
            status: Status::NotFound,
            body: Body::Message(TODO_NOT_FOUND),
        },
        Err(_) => Reply {
            status: Status::InternalServerError,
            body: Body::Message(FAILED_TO_UPDATE_TODO),
        },
    }
}

/// The reply to a delete: `204` without a body, `404` if the service reports
/// that no row has the identity, `500` for any other failure.
///
/// A store that behaves as this crate describes deletes without complaint
/// where there is no row, so behind such a store the `404` is never sent; it
/// is kept for a service that does report the missing row.
pub fn delete_todo(outcome: Result<(), StoreError>) -> (reply: Reply<TodoResponse>)
    ensures
        match outcome {
            Ok(_) => reply.is_bare(Status::NoContent),
            Err(StoreError::RowNotFound) => reply.says(Status::NotFound, TODO_NOT_FOUND@),
            Err(_) => reply.says(Status::InternalServerError, FAILED_TO_DELETE_TODO@),
        },
{
    match outcome {
        Ok(_) => Reply { status: Status::NoContent, body: Body::Empty },
        Err(StoreError::RowNotFound) => Reply {
            status: Status::NotFound,
            body: Body::Message(TODO_NOT_FOUND),
        },
        Err(_) => Reply {
            status: Status::InternalServerError,
            body: Body::Message(FAILED_TO_DELETE_TODO),
        },
    }
}

} // verus!
