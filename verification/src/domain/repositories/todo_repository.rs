//! The store of tasks.
//!
//! A store holds at most one row under each identity. The spec functions of
//! this module say what each of its five operations returns and leaves
//! behind; [`TodoTable`] is a store in memory that is proved to do exactly
//! that, and any other store is expected to behave alike.

use crate::domain::models::instant::{now_jst_as_utc, Timestamp};
use crate::domain::models::todo::{Todo, TodoView};
use crate::domain::repositories::error::StoreError;
use vstd::prelude::*;

verus! {

/// The view of a task that may be absent.
pub open spec fn view_of_found(found: Option<Todo>) -> Option<TodoView> {
    match found {
        Some(todo) => Some(todo@),
        None => None,
    }
}

/// The view of a task that an operation may have failed to produce.
pub open spec fn view_of_outcome(outcome: Result<Todo, StoreError>) -> Result<
    TodoView,
    StoreError,
> {
    match outcome {
        Ok(todo) => Ok(todo@),
        Err(error) => Err(error),
    }
}

/// Every row was changed no earlier than it was created.
pub open spec fn all_valid(rows: Map<u128, TodoView>) -> bool {
    forall|id: u128| #[trigger] rows.contains_key(id) ==> rows[id].valid()
}

/// Every row is filed under its own identity.
pub open spec fn keyed_by_identity(rows: Map<u128, TodoView>) -> bool {
    forall|id: u128| #[trigger] rows.contains_key(id) ==> rows[id].id == id
}

/// What looking up `id` gives: the row under it, or nothing.
pub open spec fn found(rows: Map<u128, TodoView>, id: u128) -> Option<TodoView> {
    if rows.contains_key(id) {
        Some(rows[id])
    } else {
        None
    }
}

/// `listing` names every row of `rows` once, in some order.
pub open spec fn lists(rows: Map<u128, TodoView>, listing: Seq<TodoView>) -> bool {
    &&& forall|i: int|
        0 <= i < listing.len() ==> rows.contains_key(#[trigger] listing[i].id) && rows[listing[i].id]
            == listing[i]
    &&& forall|i: int, j: int|
        0 <= i < j < listing.len() ==> #[trigger] listing[i].id != #[trigger] listing[j].id
    &&& forall|id: u128| #[trigger]
        rows.contains_key(id) ==> exists|i: int| 0 <= i < listing.len() && #[trigger] listing[i].id == id
}

/// What creating `todo` answers: the row as given, unless its identity is
/// taken.
pub open spec fn create_outcome(rows: Map<u128, TodoView>, todo: TodoView) -> Result<
    TodoView,
    StoreError,
> {
    if rows.contains_key(todo.id) {
        Err(StoreError::ConstraintViolation)
    } else {
        Ok(todo)
    }
}

/// What the store holds after creating `todo`.
pub open spec fn rows_after_create(rows: Map<u128, TodoView>, todo: TodoView) -> Map<
    u128,
    TodoView,
> {
    if rows.contains_key(todo.id) {
        rows
    } else {
        rows.insert(todo.id, todo)
    }
}

/// The row that an update writes over `stored`: the texts and the flag of
/// `given`, the identity and creation instant of `stored`, and the reading
/// `now` of the store's own clock as the instant of change. The instant that
/// `given` carries is not looked at.
pub open spec fn restamped(stored: TodoView, given: TodoView, now: Timestamp) -> TodoView {
    TodoView {
        id: stored.id,
        title: given.title,
        description: given.description,
        completed: given.completed,
        created_at: stored.created_at,
        updated_at: now,
    }
}

/// What updating to `todo` answers when the store's clock reads `now`: the
/// row as written, or that no row has this identity.
pub open spec fn update_outcome(
    rows: Map<u128, TodoView>,
    todo: TodoView,
    now: Timestamp,
) -> Result<TodoView, StoreError> {
    if rows.contains_key(todo.id) {
        Ok(restamped(rows[todo.id], todo, now))
    } else {
        Err(StoreError::RowNotFound)
    }
}

/// What the store holds after updating to `todo` at `now`.
pub open spec fn rows_after_update(
    rows: Map<u128, TodoView>,
    todo: TodoView,
    now: Timestamp,
) -> Map<u128, TodoView> {
    if rows.contains_key(todo.id) {
        rows.insert(todo.id, restamped(rows[todo.id], todo, now))
    } else {
        rows
    }
}

/// What the store holds after deleting `id`. Deleting never fails for want of
/// a row: where none has this identity the store is left as it was.
pub open spec fn rows_after_delete(rows: Map<u128, TodoView>, id: u128) -> Map<u128, TodoView> {
    rows.remove(id)
}

/// A row that was created is found under its identity, equal in every field
/// to what the create answered; the rows under other identities are as they
/// were.
pub proof fn lemma_created_row_is_found(rows: Map<u128, TodoView>, todo: TodoView)
    requires
        create_outcome(rows, todo) is Ok,
    ensures
        create_outcome(rows, todo) == Ok::<TodoView, StoreError>(todo),
        found(rows_after_create(rows, todo), todo.id) == Some(todo),
        forall|other: u128|
            other != todo.id ==> #[trigger] found(rows_after_create(rows, todo), other) == found(
                rows,
                other,
            ),
{
}

/// A create succeeds only under an identity that no row has yet, so rows
/// created one after the other never share an identity.
pub proof fn lemma_created_identities_differ(
    rows: Map<u128, TodoView>,
    first: TodoView,
    second: TodoView,
)
    requires
        create_outcome(rows, first) is Ok,
        create_outcome(rows_after_create(rows, first), second) is Ok,
    ensures
        !rows.contains_key(first.id),
        !rows.contains_key(second.id),
        first.id != second.id,
{
}

/// A create that is refused leaves the store as it was.
pub proof fn lemma_refused_create_changes_nothing(rows: Map<u128, TodoView>, todo: TodoView)
    requires
        create_outcome(rows, todo) is Err,
    ensures
        rows.contains_key(todo.id),
        create_outcome(rows, todo) == Err::<TodoView, StoreError>(StoreError::ConstraintViolation),
        rows_after_create(rows, todo) == rows,
{
}

/// An update keeps the identity and the creation instant of the row and sets
/// the instant of change to the store's clock reading. Where that reading is
/// not earlier than the last change, the instant of change does not go back,
/// and a valid row stays valid.
pub proof fn lemma_update_keeps_instants_ordered(
    rows: Map<u128, TodoView>,
    todo: TodoView,
    now: Timestamp,
)
    requires
        rows.contains_key(todo.id),
        rows[todo.id].valid(),
        now.at_or_after(rows[todo.id].updated_at),
    ensures
        update_outcome(rows, todo, now) is Ok,
        rows_after_update(rows, todo, now).contains_key(todo.id),
        rows_after_update(rows, todo, now)[todo.id].id == rows[todo.id].id,
        rows_after_update(rows, todo, now)[todo.id].created_at == rows[todo.id].created_at,
        rows_after_update(rows, todo, now)[todo.id].updated_at == now,
        rows_after_update(rows, todo, now)[todo.id].updated_at.at_or_after(
            rows[todo.id].updated_at,
        ),
        rows_after_update(rows, todo, now)[todo.id].valid(),
{
}

/// An update under an identity that no row has fails with
/// [`StoreError::RowNotFound`] and leaves the store as it was.
pub proof fn lemma_update_of_unknown_identity(
    rows: Map<u128, TodoView>,
    todo: TodoView,
    now: Timestamp,
)
    requires
        !rows.contains_key(todo.id),
    ensures
        update_outcome(rows, todo, now) == Err::<TodoView, StoreError>(StoreError::RowNotFound),
        rows_after_update(rows, todo, now) == rows,
{
}

/// Of two updates of one row the later one wins: the row then carries what
/// the second update gave and the second clock reading, as if the first had
/// never been written. Neither update looks at what the other read before.
pub proof fn lemma_last_update_wins(
    rows: Map<u128, TodoView>,
    first: TodoView,
    earlier: Timestamp,
    second: TodoView,
    later: Timestamp,
)
    requires
        rows.contains_key(second.id),
        first.id == second.id,
    ensures
        rows_after_update(rows_after_update(rows, first, earlier), second, later)
            == rows_after_update(rows, second, later),
        found(rows_after_update(rows_after_update(rows, first, earlier), second, later), second.id)
            == Some(restamped(rows[second.id], second, later)),
{
}

/// Deleting an identity that no row has leaves the store as it was.
pub proof fn lemma_delete_of_unknown_identity(rows: Map<u128, TodoView>, id: u128)
    requires
        !rows.contains_key(id),
    ensures
        rows_after_delete(rows, id) == rows,
{
}

/// After a delete nothing is found under the identity, whether or not a row
/// was there before; the rows under other identities are as they were.
pub proof fn lemma_deleted_row_is_gone(rows: Map<u128, TodoView>, id: u128)
    ensures
        found(rows_after_delete(rows, id), id) == None::<TodoView>,
        forall|other: u128|
            other != id ==> #[trigger] found(rows_after_delete(rows, id), other) == found(
                rows,
                other,
            ),
{
}

/// One change of a store: a create, an update at a reading of the store's
/// clock, or a delete.
pub enum TodoChange {
    Create(TodoView),
    Update(TodoView, Timestamp),
    Delete(u128),
}

/// What the store holds after `change`.
pub open spec fn rows_after(rows: Map<u128, TodoView>, change: TodoChange) -> Map<u128, TodoView> {
    match change {
        TodoChange::Create(todo) => rows_after_create(rows, todo),
        TodoChange::Update(todo, now) => rows_after_update(rows, todo, now),
        TodoChange::Delete(id) => rows_after_delete(rows, id),
    }
}

/// `change` respects time: a row that it creates is valid, and where it
/// updates a row the clock does not read earlier than the last change of
/// that row.
pub open spec fn in_order(rows: Map<u128, TodoView>, change: TodoChange) -> bool {
    match change {
        TodoChange::Create(todo) => todo.valid(),
        TodoChange::Update(todo, now) => rows.contains_key(todo.id) ==> now.at_or_after(
            rows[todo.id].updated_at,
        ),
        TodoChange::Delete(_) => true,
    }
}

/// What the store holds after `changes`, applied first to last.
pub open spec fn rows_after_all(rows: Map<u128, TodoView>, changes: Seq<TodoChange>) -> Map<
    u128,
    TodoView,
>
    decreases changes.len(),
{
    if changes.len() == 0 {
        rows
    } else {
        rows_after(rows_after_all(rows, changes.drop_last()), changes.last())
    }
}

/// Each of `changes` respects time in the store that the changes before it
/// leave.
pub open spec fn all_in_order(rows: Map<u128, TodoView>, changes: Seq<TodoChange>) -> bool
    decreases changes.len(),
{
    changes.len() == 0 || (all_in_order(rows, changes.drop_last()) && in_order(
        rows_after_all(rows, changes.drop_last()),
        changes.last(),
    ))
}

/// Whatever changes a store goes through, as long as each respects time,
/// every row stays valid and under its own identity. This holds of every
/// store that began empty.
pub proof fn lemma_rows_stay_valid(rows: Map<u128, TodoView>, changes: Seq<TodoChange>)
    requires
        all_valid(rows),
        keyed_by_identity(rows),
        all_in_order(rows, changes),
    ensures
        all_valid(rows_after_all(rows, changes)),
        keyed_by_identity(rows_after_all(rows, changes)),
    decreases changes.len(),
{
    if changes.len() > 0 {
        lemma_rows_stay_valid(rows, changes.drop_last());
    }
}

/// Along changes that respect time, the instant of change of a row never
/// goes back for as long as the row is not deleted, and its identity and
/// creation instant stay what they were.
pub proof fn lemma_change_instant_never_goes_back(
    rows: Map<u128, TodoView>,
    change: TodoChange,
    id: u128,
)
    requires
        keyed_by_identity(rows),
        rows.contains_key(id),
        in_order(rows, change),
        rows_after(rows, change).contains_key(id),
    ensures
        rows_after(rows, change)[id].id == id,
        rows_after(rows, change)[id].created_at == rows[id].created_at,
        rows_after(rows, change)[id].updated_at.at_or_after(rows[id].updated_at),
{
}

/// A store of tasks in memory.
pub struct TodoTable {
    rows: Vec<Todo>,
    held: Ghost<Map<u128, TodoView>>,
}

impl View for TodoTable {
    type V = Map<u128, TodoView>;

    closed spec fn view(&self) -> Map<u128, TodoView> {
        self.held@
    }
}

impl TodoTable {
    /// The rows in memory are the rows of the view, each once.
    pub closed spec fn wf(&self) -> bool {
        &&& forall|i: int|
            0 <= i < self.rows@.len() ==> self.held@.contains_key(#[trigger] self.rows@[i].id)
                && self.held@[self.rows@[i].id] == self.rows@[i]@
        &&& forall|i: int, j: int|
            0 <= i < j < self.rows@.len() ==> #[trigger] self.rows@[i].id != #[trigger] self.rows@[j].id
        &&& forall|id: u128| #[trigger]
            self.held@.contains_key(id) ==> exists|i: int|
                0 <= i < self.rows@.len() && #[trigger] self.rows@[i].id == id
    }

    /// A well-formed table files every row under its own identity.
    pub proof fn lemma_keyed_by_identity(&self)
        requires
            self.wf(),
        ensures
            keyed_by_identity(self@),
    {
        assert forall|id: u128| #[trigger] self@.contains_key(id) implies self@[id].id == id by {
            let i = choose|i: int| 0 <= i < self.rows@.len() && #[trigger] self.rows@[i].id == id;
            assert(self.held@[self.rows@[i].id] == self.rows@[i]@);
        }
    }

    /// An empty store.
    pub fn new() -> (table: TodoTable)
        ensures
            table.wf(),
            table@ == Map::<u128, TodoView>::empty(),
    {
        TodoTable { rows: Vec::new(), held: Ghost(Map::empty()) }
    }

    /// Where the row under `id` lies, if there is one.
    fn position(&self, id: u128) -> (at: Option<usize>)
        requires
            self.wf(),
        ensures
            match at {
                Some(i) => i < self.rows@.len() && self.rows@[i as int].id == id
                    && self.held@.contains_key(id),
                None => !self.held@.contains_key(id),
            },
    {
        let mut i: usize = 0;
        while i < self.rows.len()
            invariant
                i <= self.rows@.len(),
                self.wf(),
                forall|k: int| 0 <= k < i ==> (#[trigger] self.rows@[k]).id != id,
            decreases self.rows@.len() - i,
        {
            if self.rows[i].id == id {
                return Some(i);
            }
            i += 1;
        }
        None
    }

    /// Every row of the store, in no promised order.
    pub fn find_all(&self) -> (all: Vec<Todo>)
        requires
            self.wf(),
        ensures
            lists(self@, all@.map_values(|todo: Todo| todo@)),
    {
        let mut all: Vec<Todo> = Vec::new();
        let mut i: usize = 0;
        while i < self.rows.len()
            invariant
                i <= self.rows@.len(),
                all@.len() == i,
                forall|k: int| 0 <= k < i ==> (#[trigger] all@[k])@ == self.rows@[k]@,
            decreases self.rows@.len() - i,
        {
            all.push(self.rows[i].duplicate());
            i += 1;
        }
        proof {
            let listing = all@.map_values(|todo: Todo| todo@);
            assert forall|k: int| 0 <= k < listing.len() implies listing[k] == self.rows@[k]@ by {
                assert(all@[k]@ == self.rows@[k]@);
            }
            assert forall|id: u128| #[trigger] self@.contains_key(id) implies exists|k: int|
                0 <= k < listing.len() && #[trigger] listing[k].id == id by {
                let k = choose|k: int| 0 <= k < self.rows@.len() && #[trigger] self.rows@[k].id == id;
                assert(listing[k].id == id);
            }
        }
        all
    }

    /// The row under `id`, if the store holds one.
    pub fn find_by_id(&self, id: u128) -> (row: Option<Todo>)
        requires
            self.wf(),
        ensures
            view_of_found(row) == found(self@, id),
    {
        match self.position(id) {
            Some(i) => Some(self.rows[i].duplicate()),
            None => None,
        }
    }

    /// Files `todo` as it is given and answers with the row that is now held.
    /// A row whose identity is taken is refused and changes nothing.
    pub fn create(&mut self, todo: Todo) -> (outcome: Result<Todo, StoreError>)
        requires
            old(self).wf(),
        ensures
            final(self).wf(),
            final(self)@ == rows_after_create(old(self)@, todo@),
            view_of_outcome(outcome) == create_outcome(old(self)@, todo@),
    {
        match self.position(todo.id) {
            Some(_) => Err(StoreError::ConstraintViolation),
            None => {
                let ghost before = self.rows@;
                self.rows.push(todo.duplicate());
                self.held = Ghost(self.held@.insert(todo.id, todo@));
                proof {
                    assert forall|id: u128| #[trigger]
                        self.held@.contains_key(id) implies exists|i: int|
                        0 <= i < self.rows@.len() && #[trigger] self.rows@[i].id == id by {
                        if id == todo.id {
                            assert(self.rows@[before.len() as int].id == id);
                        } else {
                            let i = choose|i: int| 0 <= i < before.len() && #[trigger] before[i].id == id;
                            assert(self.rows@[i].id == id);
                        }
                    }
                }
                Ok(todo)
            },
        }
    }

    /// Writes the texts and the flag of `todo` over the row with its
    /// identity, stamps the row with `now`, and answers with the row as it
    /// is now held. Without such a row nothing is written.
    pub fn update_at(&mut self, todo: Todo, now: Timestamp) -> (outcome: Result<Todo, StoreError>)
        requires
            old(self).wf(),
        ensures
            final(self).wf(),
            final(self)@ == rows_after_update(old(self)@, todo@, now),
            view_of_outcome(outcome) == update_outcome(old(self)@, todo@, now),
    {
        match self.position(todo.id) {
            None => Err(StoreError::RowNotFound),
            Some(i) => {
                let ghost before = self.rows@;
                let written = Todo {
                    id: self.rows[i].id,
                    title: todo.title,
                    description: todo.description,
                    completed: todo.completed,
                    created_at: self.rows[i].created_at,
                    updated_at: now,
                };
                self.rows.set(i, written.duplicate());
                self.held = Ghost(self.held@.insert(written.id, written@));
                proof {
                    assert forall|k: int| 0 <= k < self.rows@.len() implies self.held@.contains_key(
                        #[trigger] self.rows@[k].id,
                    ) && self.held@[self.rows@[k].id] == self.rows@[k]@ by {
                        if k != i {
                            assert(self.rows@[k] == before[k]);
                            assert(before[k].id != before[i as int].id);
                        }
                    }
                    assert forall|a: int, b: int| 0 <= a < b < self.rows@.len() implies (
                    #[trigger] self.rows@[a]).id != (#[trigger] self.rows@[b]).id by {
                        assert(self.rows@[a].id == before[a].id);
                        assert(self.rows@[b].id == before[b].id);
                    }
                    assert forall|id: u128| #[trigger]
                        self.held@.contains_key(id) implies exists|k: int|
                        0 <= k < self.rows@.len() && #[trigger] self.rows@[k].id == id by {
                        let k = choose|k: int| 0 <= k < before.len() && #[trigger] before[k].id == id;
                        assert(self.rows@[k].id == id);
                    }
                }
                Ok(written)
            },
        }
    }

    /// [`TodoTable::update_at`] at the instant that the clock shows.
    ///
    /// Which instant that is cannot be told beforehand; whatever it is, the
    /// outcome and the rows are those of an update at that instant.
    pub fn update(&mut self, todo: Todo) -> (outcome: Result<Todo, StoreError>)
        requires
            old(self).wf(),
        ensures
            final(self).wf(),
            exists|now: Timestamp|
                final(self)@ == rows_after_update(old(self)@, todo@, now) && view_of_outcome(
                    outcome,
                ) == #[trigger] update_outcome(old(self)@, todo@, now),
    {
        let now = now_jst_as_utc();
        self.update_at(todo, now)
    }

    /// Removes the row under `id`. This succeeds whether or not there was
    /// such a row.
    pub fn delete(&mut self, id: u128) -> (outcome: Result<(), StoreError>)
        requires
            old(self).wf(),
        ensures
            final(self).wf(),
            final(self)@ == rows_after_delete(old(self)@, id),
            outcome == Ok::<(), StoreError>(()),
    {
        match self.position(id) {
            None => {
                assert(self.held@.remove(id) =~= self.held@);
                Ok(())
            },
            Some(i) => {
                let ghost before = self.rows@;
                let _ = self.rows.remove(i);
                self.held = Ghost(self.held@.remove(id));
                proof {
                    assert forall|k: int| 0 <= k < self.rows@.len() implies self.held@.contains_key(
                        #[trigger] self.rows@[k].id,
                    ) && self.held@[self.rows@[k].id] == self.rows@[k]@ by {
                        if k < i {
                            assert(self.rows@[k] == before[k]);
                            assert(before[k].id != before[i as int].id);
                        } else {
                            assert(self.rows@[k] == before[k + 1]);
                            assert(before[i as int].id != before[k + 1].id);
                        }
                    }
                    assert forall|a: int, b: int| 0 <= a < b < self.rows@.len() implies (
                    #[trigger] self.rows@[a]).id != (#[trigger] self.rows@[b]).id by {
                        let a0 = if a < i { a } else { a + 1 };
                        let b0 = if b < i { b } else { b + 1 };
                        assert(self.rows@[a] == before[a0]);
                        assert(self.rows@[b] == before[b0]);
                        assert(before[a0].id != before[b0].id);
                    }
                    assert forall|other: u128| #[trigger]
                        self.held@.contains_key(other) implies exists|k: int|
                        0 <= k < self.rows@.len() && #[trigger] self.rows@[k].id == other by {
                        let k = choose|k: int|
                            0 <= k < before.len() && #[trigger] before[k].id == other;
                        if k < i {
                            assert(self.rows@[k].id == other);
                        } else {
                            assert(self.rows@[k - 1] == before[k]);
                            assert(self.rows@[k - 1].id == other);
                        }
                    }
                }
                Ok(())
            },
        }
    }
}

} // verus!
