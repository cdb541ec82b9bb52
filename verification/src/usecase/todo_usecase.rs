//! The task service.
//!
//! Listing, fetching and deleting hand the request to the store and the
//! answer back as they are. Creating and updating decide something first:
//! which row the store is given, or that it is given none.

use crate::domain::models::identity::is_version_7;
use crate::domain::models::instant::Timestamp;
use crate::domain::models::todo::{fresh_todo, Todo, TodoView};
use crate::domain::repositories::error::StoreError;
use crate::domain::repositories::todo_repository::{
    create_outcome,
    found,
    keyed_by_identity,
    rows_after_create,
    rows_after_update,
    update_outcome,
    view_of_found,
    view_of_outcome,
};
use vstd::prelude::*;

verus! {

/// The row that an update hands to the store: `existing` with its title,
/// description and flag replaced, all three, by what the caller supplied.
pub open spec fn replaced(
    existing: TodoView,
    title: Seq<char>,
    description: Seq<char>,
    completed: bool,
) -> TodoView {
    TodoView {
        id: existing.id,
        title,
        description: Some(description),
        completed,
        created_at: existing.created_at,
        updated_at: existing.updated_at,
    }
}

/// What an update does once the store has answered the lookup with
/// `existing`: it hands over a row, or it ends with
/// [`StoreError::RowNotFound`] and hands the store nothing.
pub open spec fn update_plan(
    existing: Option<TodoView>,
    title: Seq<char>,
    description: Seq<char>,
    completed: bool,
) -> Result<TodoView, StoreError> {
    match existing {
        Some(row) => Ok(replaced(row, title, description, completed)),
        None => Err(StoreError::RowNotFound),
    }
}

/// What an update does once the lookup has come back, whatever it came back
/// with: a lookup that failed is handed on as it failed, and the store is
/// given nothing; one that was answered is decided by [`update_plan`].
pub open spec fn update_plan_after_lookup(
    lookup: Result<Option<TodoView>, StoreError>,
    title: Seq<char>,
    description: Seq<char>,
    completed: bool,
) -> Result<TodoView, StoreError> {
    match lookup {
        Ok(existing) => update_plan(existing, title, description, completed),
        Err(error) => Err(error),
    }
}

/// The view of what a lookup came back with.
pub open spec fn view_of_lookup(lookup: Result<Option<Todo>, StoreError>) -> Result<
    Option<TodoView>,
    StoreError,
> {
    match lookup {
        Ok(found) => Ok(view_of_found(found)),
        Err(error) => Err(error),
    }
}

/// The task service over a repository of type `T`. It holds that one
/// repository and nothing else.
#[derive(Clone)]
pub struct TodoUsecase<T> {
    repository: T,
}

impl<T> View for TodoUsecase<T> {
    type V = T;

    /// The repository that the service holds.
    closed spec fn view(&self) -> T {
        self.repository
    }
}

impl<T> TodoUsecase<T> {
    pub fn new(repository: T) -> (usecase: Self)
        ensures
            usecase@ == repository,
    {
        TodoUsecase { repository }
    }

    /// The repository to send the store calls to.
    pub fn repository(&self) -> (repository: &T)
        ensures
            *repository == self@,
    {
        &self.repository
    }

    /// The row to hand to the store's create: a task for the given texts with
    /// a new identity, not completed, created and changed at one instant.
    pub fn create_todo(&self, title: String, description: String) -> (todo: Todo)
        ensures
            todo@ == fresh_todo(todo@.id, todo@.created_at, title@, description@),
            is_version_7(todo@.id),
    {
        Todo::new(title, description)
    }

    /// Decides an update from what the lookup of the identity gave.
    ///
    /// With a row, the answer is that row with all three supplied fields
    /// written over it, to be handed to the store's update. Without one, the
    /// answer is [`StoreError::RowNotFound`], and the store is not called
    /// again.
    pub fn update_todo(
        &self,
        existing: Option<Todo>,
        title: String,
        description: String,
        completed: bool,
    ) -> (plan: Result<Todo, StoreError>)
        ensures
            view_of_outcome(plan) == update_plan(
                view_of_found(existing),
                title@,
                description@,
                completed,
            ),
    {
        match existing {
            Some(mut todo) => {
                todo.title = title;
                todo.description = Some(description);
                todo.completed = completed;
                Ok(todo)
            },
            None => Err(StoreError::RowNotFound),
        }
    }

    /// Decides an update from the whole outcome of the lookup.
    ///
    /// A lookup that failed ends the update with that same failure: it is
    /// not turned into [`StoreError::RowNotFound`], and the store is not
    /// called again. A lookup that was answered is decided as
    /// [`TodoUsecase::update_todo`] decides it.
    pub fn update_todo_after_lookup(
        &self,
        lookup: Result<Option<Todo>, StoreError>,
        title: String,
        description: String,
        completed: bool,
    ) -> (plan: Result<Todo, StoreError>)
        ensures
            view_of_outcome(plan) == update_plan_after_lookup(
                view_of_lookup(lookup),
                title@,
                description@,
                completed,
            ),
    {
        match lookup {
            Ok(existing) => self.update_todo(existing, title, description, completed),
            Err(error) => Err(error),
        }
    }
}

/// An update whose lookup failed ends with the failure of the lookup,
/// whichever it was, and hands the store no row.
pub proof fn lemma_failed_lookup_is_handed_on(
    error: StoreError,
    title: Seq<char>,
    description: Seq<char>,
    completed: bool,
)
    ensures
        update_plan_after_lookup(
            Err::<Option<TodoView>, StoreError>(error),
            title,
            description,
            completed,
        ) == Err::<TodoView, StoreError>(error),
{
}

/// An update of an identity that the store does not hold ends with
/// [`StoreError::RowNotFound`]. The plan then carries no row, and only a row
/// of a plan is ever handed to the store, so nothing is written.
pub proof fn lemma_update_of_missing_row_is_refused(
    rows: Map<u128, TodoView>,
    id: u128,
    title: Seq<char>,
    description: Seq<char>,
    completed: bool,
)
    requires
        !rows.contains_key(id),
    ensures
        update_plan(found(rows, id), title, description, completed) == Err::<
            TodoView,
            StoreError,
        >(StoreError::RowNotFound),
{
}

/// An update of an identity that the store holds replaces the title, the
/// description and the flag by what was supplied, whatever they were before,
/// keeps the identity and the creation instant, and takes the instant of
/// change from the store's clock. The store answers with that row and holds
/// it afterwards.
pub proof fn lemma_update_replaces_every_field(
    rows: Map<u128, TodoView>,
    id: u128,
    title: Seq<char>,
    description: Seq<char>,
    completed: bool,
    now: Timestamp,
)
    requires
        keyed_by_identity(rows),
        rows.contains_key(id),
    ensures
        update_plan(found(rows, id), title, description, completed) is Ok,
        ({
            let handed = update_plan(found(rows, id), title, description, completed)->Ok_0;
            let written = TodoView {
                id,
                title,
                description: Some(description),
                completed,
                created_at: rows[id].created_at,
                updated_at: now,
            };
            &&& handed == replaced(rows[id], title, description, completed)
            &&& update_outcome(rows, handed, now) == Ok::<TodoView, StoreError>(written)
            &&& found(rows_after_update(rows, handed, now), id) == Some(written)
        }),
{
}

/// A task that was created and filed is found again under its identity,
/// field for field as the create answered it.
pub proof fn lemma_created_todo_is_found(
    rows: Map<u128, TodoView>,
    id: u128,
    now: Timestamp,
    title: Seq<char>,
    description: Seq<char>,
)
    requires
        !rows.contains_key(id),
    ensures
        create_outcome(rows, fresh_todo(id, now, title, description)) == Ok::<
            TodoView,
            StoreError,
        >(fresh_todo(id, now, title, description)),
        found(rows_after_create(rows, fresh_todo(id, now, title, description)), id) == Some(
            fresh_todo(id, now, title, description),
        ),
{
}

} // verus!
