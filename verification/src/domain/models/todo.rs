//! The task record.

use crate::domain::models::identity::{draw_version_7, is_version_7};
use crate::domain::models::instant::{now_jst_as_utc, Timestamp};
use vstd::prelude::*;

verus! {

/// A task: what was asked for, whether it is done, and when the record was
/// created and last changed.
#[derive(Debug, Clone, PartialEq, Eq)]
pub struct Todo {
    pub id: u128,
    pub title: String,
    pub description: Option<String>,
    pub completed: bool,
    pub created_at: Timestamp,
    pub updated_at: Timestamp,
}

/// A task as contracts speak of it: texts are sequences of characters.
pub struct TodoView {
    pub id: u128,
    pub title: Seq<char>,
    pub description: Option<Seq<char>>,
    pub completed: bool,
    pub created_at: Timestamp,
    pub updated_at: Timestamp,
}

impl TodoView {
    /// The record was not changed before it was created.
    pub open spec fn valid(self) -> bool {
        self.updated_at.at_or_after(self.created_at)
    }
}

/// The task that a create request yields once an identity and an instant are
/// at hand: open, with both of its instants equal.
pub open spec fn fresh_todo(
    id: u128,
    now: Timestamp,
    title: Seq<char>,
    description: Seq<char>,
) -> TodoView {
    TodoView {
        id,
        title,
        description: Some(description),
        completed: false,
        created_at: now,
        updated_at: now,
    }
}

impl View for Todo {
    type V = TodoView;

    open spec fn view(&self) -> TodoView {
        TodoView {
            id: self.id,
            title: self.title@,
            description: match self.description {
                Some(text) => Some(text@),
                None => None,
            },
            completed: self.completed,
            created_at: self.created_at,
            updated_at: self.updated_at,
        }
    }
}

impl Todo {
    /// A task for `title` and `description` with a newly drawn identity,
    /// created now and not completed.
    ///
    /// The identity and the instant come from outside, so the contract fixes
    /// everything else: the texts, the flag, that the two instants are one and
    /// the same, and the layout of the identity.
    pub fn new(title: String, description: String) -> (todo: Todo)
        ensures
            todo@.title == title@,
            todo@.description == Some(description@),
            !todo@.completed,
            todo@.created_at == todo@.updated_at,
            todo@.valid(),
            is_version_7(todo@.id),
            todo@ == fresh_todo(todo@.id, todo@.created_at, title@, description@),
    {
        let now = now_jst_as_utc();
        let id = draw_version_7();
        Todo::with_identity(id, now, title, description)
    }

    /// The task that [`Todo::new`] builds, for a given identity and instant.
    pub fn with_identity(id: u128, now: Timestamp, title: String, description: String) -> (todo:
        Todo)
        ensures
            todo@ == fresh_todo(id, now, title@, description@),
    {
        Todo {
            id,
            title,
            description: Some(description),
            completed: false,
            created_at: now,
            updated_at: now,
        }
    }

    /// A copy of the record.
    pub fn duplicate(&self) -> (copy: Todo)
        ensures
            copy@ == self@,
    {
        let description = match &self.description {
            Some(text) => Some(text.clone()),
            None => None,
        };
        Todo {
            id: self.id,
            title: self.title.clone(),
            description,
            completed: self.completed,
            created_at: self.created_at,
            updated_at: self.updated_at,
        }
    }

    /// Decides [`TodoView::valid`].
    pub fn is_valid(&self) -> (b: bool)
        ensures
            b == self@.valid(),
    {
        self.updated_at.is_at_or_after(&self.created_at)
    }
}

/// A task that was just built is valid, open, and carries one instant twice,
/// whatever identity and instant it got.
pub proof fn lemma_fresh_todo_valid(
    id: u128,
    now: Timestamp,
    title: Seq<char>,
    description: Seq<char>,
)
    ensures
        fresh_todo(id, now, title, description).valid(),
        fresh_todo(id, now, title, description).created_at == fresh_todo(
            id,
            now,
            title,
            description,
        ).updated_at,
        !fresh_todo(id, now, title, description).completed,
{
}

} // verus!
