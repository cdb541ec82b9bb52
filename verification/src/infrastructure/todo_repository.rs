//! The statements of the task repository.

use crate::domain::models::todo::Todo;
use crate::infrastructure::db::{SqlValue, SqlValueView, Statement};
use vstd::prelude::*;

verus! {

pub const SELECT_TODOS: &'static str =
    "SELECT id, title, description, completed, created_at, updated_at FROM todos";

pub const SELECT_TODO_BY_ID: &'static str =
    "SELECT id, title, description, completed, created_at, updated_at FROM todos WHERE id = $1";

pub const INSERT_TODO: &'static str =
    "INSERT INTO todos (id, title, description, completed, created_at, updated_at) VALUES ($1, $2, $3, $4, $5, $6) RETURNING id, title, description, completed, created_at, updated_at";

pub const UPDATE_TODO: &'static str =
    "UPDATE todos SET title = $1, description = $2, completed = $3, updated_at = NOW() WHERE id = $4 RETURNING id, title, description, completed, created_at, updated_at";

pub const DELETE_TODO: &'static str = "DELETE FROM todos WHERE id = $1";

/// The task repository on PostgreSQL, over a connection pool of type `P`.
#[derive(Clone)]
pub struct TodoRepositoryImpl<P> {
    pub pool: P,
}

impl<P> TodoRepositoryImpl<P> {
    pub fn new(pool: P) -> (repository: Self)
        ensures
            repository.pool == pool,
    {
        TodoRepositoryImpl { pool }
    }

    /// Selects every task.
    pub fn find_all(&self) -> (statement: Statement)
        ensures
            statement@.sql == SELECT_TODOS@,
            statement@.params == Seq::<SqlValueView>::empty(),
    {
        Statement { sql: SELECT_TODOS, params: Vec::new() }
    }

    /// Selects the task under `id`.
    pub fn find_by_id(&self, id: u128) -> (statement: Statement)
        ensures
            statement@.sql == SELECT_TODO_BY_ID@,
            statement@.params == seq![SqlValueView::Uuid(id)],
    {
        let mut params: Vec<SqlValue> = Vec::new();
        params.push(SqlValue::Uuid(id));
        Statement { sql: SELECT_TODO_BY_ID, params }
    }

    /// Inserts `todo` with every column as the record carries it, instants
    /// included, and asks for the row back.
    pub fn create(&self, todo: &Todo) -> (statement: Statement)
        ensures
            statement@.sql == INSERT_TODO@,
            statement@.params == seq![
                SqlValueView::Uuid(todo@.id),
                SqlValueView::Text(todo@.title),
                SqlValueView::NullableText(todo@.description),
                SqlValueView::Boolean(todo@.completed),
                SqlValueView::TimestampTz(todo@.created_at),
                SqlValueView::TimestampTz(todo@.updated_at),
            ],
    {
        let copy = todo.duplicate();
        let mut params: Vec<SqlValue> = Vec::new();
        params.push(SqlValue::Uuid(copy.id));
        params.push(SqlValue::Text(copy.title));
        params.push(SqlValue::NullableText(copy.description));
        params.push(SqlValue::Boolean(copy.completed));
        params.push(SqlValue::TimestampTz(copy.created_at));
        params.push(SqlValue::TimestampTz(copy.updated_at));
        Statement { sql: INSERT_TODO, params }
    }

    /// Writes the title, the description and the flag of `todo` over the row
    /// with its identity and asks for the row back. The instant of change is
    /// not an argument: the statement has the server set it to what its own
    /// clock reads at the write, so the instants that `todo` carries are not
    /// sent.
    pub fn update(&self, todo: &Todo) -> (statement: Statement)
        ensures
            statement@.sql == UPDATE_TODO@,
            statement@.params == seq![
                SqlValueView::Text(todo@.title),
                SqlValueView::NullableText(todo@.description),
                SqlValueView::Boolean(todo@.completed),
                SqlValueView::Uuid(todo@.id),
            ],
    {
        let copy = todo.duplicate();
        let mut params: Vec<SqlValue> = Vec::new();
        params.push(SqlValue::Text(copy.title));
        params.push(SqlValue::NullableText(copy.description));
        params.push(SqlValue::Boolean(copy.completed));
        params.push(SqlValue::Uuid(copy.id));
        Statement { sql: UPDATE_TODO, params }
    }

    /// Deletes the row under `id`.
    pub fn delete(&self, id: u128) -> (statement: Statement)
        ensures
            statement@.sql == DELETE_TODO@,
            statement@.params == seq![SqlValueView::Uuid(id)],
    {
        let mut params: Vec<SqlValue> = Vec::new();
        params.push(SqlValue::Uuid(id));
        Statement { sql: DELETE_TODO, params }
    }
}

} // verus!
