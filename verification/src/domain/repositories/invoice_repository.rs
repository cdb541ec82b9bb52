//! The store of invoices.
//!
//! A store holds at most one row under each identity. The spec functions of
//! this module say what each of its five operations returns and leaves
//! behind; [`InvoiceTable`] is a store in memory that is proved to do exactly
//! that, and any other store is expected to behave alike.

use crate::domain::models::instant::{now_jst_as_utc, Timestamp};
use crate::domain::models::invoice::Invoice;
use crate::domain::repositories::error::StoreError;
use vstd::prelude::*;

verus! {

/// Every row was changed no earlier than it was created.
pub open spec fn all_valid(rows: Map<u128, Invoice>) -> bool {
    forall|id: u128| #[trigger] rows.contains_key(id) ==> rows[id].valid()
}

/// Every row is filed under its own identity.
pub open spec fn keyed_by_identity(rows: Map<u128, Invoice>) -> bool {
    forall|id: u128| #[trigger] rows.contains_key(id) ==> rows[id].id == id
}

/// What looking up `id` gives: the row under it, or nothing.
pub open spec fn found(rows: Map<u128, Invoice>, id: u128) -> Option<Invoice> {
    if rows.contains_key(id) {
        Some(rows[id])
    } else {
        None
    }
}

/// `listing` names every row of `rows` once, in some order.
pub open spec fn lists(rows: Map<u128, Invoice>, listing: Seq<Invoice>) -> bool {
    &&& forall|i: int|
        0 <= i < listing.len() ==> rows.contains_key(#[trigger] listing[i].id) && rows[listing[i].id]
            == listing[i]
    &&& forall|i: int, j: int|
        0 <= i < j < listing.len() ==> #[trigger] listing[i].id != #[trigger] listing[j].id
    &&& forall|id: u128| #[trigger]
        rows.contains_key(id) ==> exists|i: int| 0 <= i < listing.len() && #[trigger] listing[i].id == id
}

/// What creating `invoice` answers: the row as given, unless its identity is
/// taken.
pub open spec fn create_outcome(rows: Map<u128, Invoice>, invoice: Invoice) -> Result<
    Invoice,
    StoreError,
> {
    if rows.contains_key(invoice.id) {
        Err(StoreError::ConstraintViolation)
    } else {
        Ok(invoice)
    }
}

/// What the store holds after creating `invoice`.
pub open spec fn rows_after_create(rows: Map<u128, Invoice>, invoice: Invoice) -> Map<
    u128,
    Invoice,
> {
    if rows.contains_key(invoice.id) {
        rows
    } else {
        rows.insert(invoice.id, invoice)
    }
}

/// The row that an update writes over `stored`: the amount and the flag of
/// `given`, the identity and creation instant of `stored`, and the reading
/// `now` of the store's own clock as the instant of change. The instant that
/// `given` carries is not looked at.
pub open spec fn restamped(stored: Invoice, given: Invoice, now: Timestamp) -> Invoice {
    Invoice {
        id: stored.id,
        amount: given.amount,
        paid: given.paid,
        created_at: stored.created_at,
        updated_at: now,
    }
}

/// What updating to `invoice` answers when the store's clock reads `now`: the
/// row as written, or that no row has this identity.
pub open spec fn update_outcome(
    rows: Map<u128, Invoice>,
    invoice: Invoice,
    now: Timestamp,
) -> Result<Invoice, StoreError> {
    if rows.contains_key(invoice.id) {
        Ok(restamped(rows[invoice.id], invoice, now))
    } else {
        Err(StoreError::RowNotFound)
    }
}

/// What the store holds after updating to `invoice` at `now`.
pub open spec fn rows_after_update(
    rows: Map<u128, Invoice>,
    invoice: Invoice,
    now: Timestamp,
) -> Map<u128, Invoice> {
    if rows.contains_key(invoice.id) {
        rows.insert(invoice.id, restamped(rows[invoice.id], invoice, now))
    } else {
        rows
    }
}

/// What the store holds after deleting `id`. Deleting never fails for want of
/// a row: where none has this identity the store is left as it was.
pub open spec fn rows_after_delete(rows: Map<u128, Invoice>, id: u128) -> Map<u128, Invoice> {
    rows.remove(id)
}

/// A row that was created is found under its identity, equal in every field
/// to what the create answered; the rows under other identities are as they
/// were.
pub proof fn lemma_created_row_is_found(rows: Map<u128, Invoice>, invoice: Invoice)
    requires
        create_outcome(rows, invoice) is Ok,
    ensures
        create_outcome(rows, invoice) == Ok::<Invoice, StoreError>(invoice),
        found(rows_after_create(rows, invoice), invoice.id) == Some(invoice),
        forall|other: u128|
            other != invoice.id ==> #[trigger] found(rows_after_create(rows, invoice), other) == found(
                rows,
                other,
            ),
{
}

/// A create succeeds only under an identity that no row has yet, so rows
/// created one after the other never share an identity.
pub proof fn lemma_created_identities_differ(
    rows: Map<u128, Invoice>,
    first: Invoice,
    second: Invoice,
)
    requires
        create_outcome(rows, first) is Ok,
        create_outcome(rows_after_create(rows, first), second) is Ok,
    ensures
        !rows.contains_key(first.id),
        !rows.contains_key(second.id),
        first.id != second.id,
{
}

/// A create that is refused leaves the store as it was.
pub proof fn lemma_refused_create_changes_nothing(rows: Map<u128, Invoice>, invoice: Invoice)
    requires
        create_outcome(rows, invoice) is Err,
    ensures
        rows.contains_key(invoice.id),
        create_outcome(rows, invoice) == Err::<Invoice, StoreError>(StoreError::ConstraintViolation),
        rows_after_create(rows, invoice) == rows,
{
}

/// An update keeps the identity and the creation instant of the row and sets
/// the instant of change to the store's clock reading. Where that reading is
/// not earlier than the last change, the instant of change does not go back,
/// and a valid row stays valid.
pub proof fn lemma_update_keeps_instants_ordered(
    rows: Map<u128, Invoice>,
    invoice: Invoice,
    now: Timestamp,
)
    requires
        rows.contains_key(invoice.id),
        rows[invoice.id].valid(),
        now.at_or_after(rows[invoice.id].updated_at),
    ensures
        update_outcome(rows, invoice, now) is Ok,
        rows_after_update(rows, invoice, now).contains_key(invoice.id),
        rows_after_update(rows, invoice, now)[invoice.id].id == rows[invoice.id].id,
        rows_after_update(rows, invoice, now)[invoice.id].created_at == rows[invoice.id].created_at,
        rows_after_update(rows, invoice, now)[invoice.id].updated_at == now,
        rows_after_update(rows, invoice, now)[invoice.id].updated_at.at_or_after(
            rows[invoice.id].updated_at,
        ),
        rows_after_update(rows, invoice, now)[invoice.id].valid(),
{
}

/// An update under an identity that no row has fails with
/// [`StoreError::RowNotFound`] and leaves the store as it was.
pub proof fn lemma_update_of_unknown_identity(
    rows: Map<u128, Invoice>,
    invoice: Invoice,
    now: Timestamp,
)
    requires
        !rows.contains_key(invoice.id),
    ensures
        update_outcome(rows, invoice, now) == Err::<Invoice, StoreError>(StoreError::RowNotFound),
        rows_after_update(rows, invoice, now) == rows,
{
}

/// Of two updates of one row the later one wins: the row then carries what
/// the second update gave and the second clock reading, as if the first had
/// never been written. Neither update looks at what the other read before.
pub proof fn lemma_last_update_wins(
    rows: Map<u128, Invoice>,
    first: Invoice,
    earlier: Timestamp,
    second: Invoice,
    later: Timestamp,
)
    requires
        rows.contains_key(second.id),
        first.id == second.id,
    ensures
        rows_after_update(rows_after_update(rows, first, earlier), second, later)
            == rows_after_update(rows, second, later),
        found(rows_after_update(rows_after_update(rows, first, earlier), second, later), second.id)
            == Some(restamped(rows[second.id], second, later)),
{
}

/// Deleting an identity that no row has leaves the store as it was.
pub proof fn lemma_delete_of_unknown_identity(rows: Map<u128, Invoice>, id: u128)
    requires
        !rows.contains_key(id),
    ensures
        rows_after_delete(rows, id) == rows,
{
}

/// After a delete nothing is found under the identity, whether or not a row
/// was there before; the rows under other identities are as they were.
pub proof fn lemma_deleted_row_is_gone(rows: Map<u128, Invoice>, id: u128)
    ensures
        found(rows_after_delete(rows, id), id) == None::<Invoice>,
        forall|other: u128|
            other != id ==> #[trigger] found(rows_after_delete(rows, id), other) == found(
                rows,
                other,
            ),
{
}

/// One change of a store: a create, an update at a reading of the store's
/// clock, or a delete.
pub enum InvoiceChange {
    Create(Invoice),
    Update(Invoice, Timestamp),
    Delete(u128),
}

/// What the store holds after `change`.
pub open spec fn rows_after(rows: Map<u128, Invoice>, change: InvoiceChange) -> Map<u128, Invoice> {
    match change {
        InvoiceChange::Create(invoice) => rows_after_create(rows, invoice),
        InvoiceChange::Update(invoice, now) => rows_after_update(rows, invoice, now),
        InvoiceChange::Delete(id) => rows_after_delete(rows, id),
    }
}

/// `change` respects time: a row that it creates is valid, and where it
/// updates a row the clock does not read earlier than the last change of
/// that row.
pub open spec fn in_order(rows: Map<u128, Invoice>, change: InvoiceChange) -> bool {
    match change {
        InvoiceChange::Create(invoice) => invoice.valid(),
        InvoiceChange::Update(invoice, now) => rows.contains_key(invoice.id) ==> now.at_or_after(
            rows[invoice.id].updated_at,
        ),
        InvoiceChange::Delete(_) => true,
    }
}

/// What the store holds after `changes`, applied first to last.
pub open spec fn rows_after_all(rows: Map<u128, Invoice>, changes: Seq<InvoiceChange>) -> Map<
    u128,
    Invoice,
>
    decreases changes.len(),
{
    if changes.len() == 0 {
        rows
    } else {
        rows_after(rows_after_all(rows, changes.drop_last()), changes.last())
    }
}

/// Each of `changes` respects time in the store that the changes before it
/// leave.
pub open spec fn all_in_order(rows: Map<u128, Invoice>, changes: Seq<InvoiceChange>) -> bool
    decreases changes.len(),
{
    changes.len() == 0 || (all_in_order(rows, changes.drop_last()) && in_order(
        rows_after_all(rows, changes.drop_last()),
        changes.last(),
    ))
}

/// Whatever changes a store goes through, as long as each respects time,
/// every row stays valid and under its own identity. This holds of every
/// store that began empty.
pub proof fn lemma_rows_stay_valid(rows: Map<u128, Invoice>, changes: Seq<InvoiceChange>)
    requires
        all_valid(rows),
        keyed_by_identity(rows),
        all_in_order(rows, changes),
    ensures
        all_valid(rows_after_all(rows, changes)),
        keyed_by_identity(rows_after_all(rows, changes)),
    decreases changes.len(),
{
    if changes.len() > 0 {
        lemma_rows_stay_valid(rows, changes.drop_last());
    }
}

/// Along changes that respect time, the instant of change of a row never
/// goes back for as long as the row is not deleted, and its identity and
/// creation instant stay what they were.
pub proof fn lemma_change_instant_never_goes_back(
    rows: Map<u128, Invoice>,
    change: InvoiceChange,
    id: u128,
)
    requires
        keyed_by_identity(rows),
        rows.contains_key(id),
        in_order(rows, change),
        rows_after(rows, change).contains_key(id),
    ensures
        rows_after(rows, change)[id].id == id,
        rows_after(rows, change)[id].created_at == rows[id].created_at,
        rows_after(rows, change)[id].updated_at.at_or_after(rows[id].updated_at),
{
}

/// A store of invoices in memory.
pub struct InvoiceTable {
    rows: Vec<Invoice>,
    held: Ghost<Map<u128, Invoice>>,
}

impl View for InvoiceTable {
    type V = Map<u128, Invoice>;

    closed spec fn view(&self) -> Map<u128, Invoice> {
        self.held@
    }
}

impl InvoiceTable {
    /// The rows in memory are the rows of the view, each once.
    pub closed spec fn wf(&self) -> bool {
        &&& forall|i: int|
            0 <= i < self.rows@.len() ==> self.held@.contains_key(#[trigger] self.rows@[i].id)
                && self.held@[self.rows@[i].id] == self.rows@[i]
        &&& forall|i: int, j: int|
            0 <= i < j < self.rows@.len() ==> #[trigger] self.rows@[i].id != #[trigger] self.rows@[j].id
        &&& forall|id: u128| #[trigger]
            self.held@.contains_key(id) ==> exists|i: int|
                0 <= i < self.rows@.len() && #[trigger] self.rows@[i].id == id
    }

    /// A well-formed table files every row under its own identity.
    pub proof fn lemma_keyed_by_identity(&self)
        requires
            self.wf(),
        ensures
            keyed_by_identity(self@),
    {
        assert forall|id: u128| #[trigger] self@.contains_key(id) implies self@[id].id == id by {
            let i = choose|i: int| 0 <= i < self.rows@.len() && #[trigger] self.rows@[i].id == id;
            assert(self.held@[self.rows@[i].id] == self.rows@[i]);
        }
    }

    /// An empty store.
    pub fn new() -> (table: InvoiceTable)
        ensures
            table.wf(),
            table@ == Map::<u128, Invoice>::empty(),
    {
        InvoiceTable { rows: Vec::new(), held: Ghost(Map::empty()) }
    }

    /// Where the row under `id` lies, if there is one.
    fn position(&self, id: u128) -> (at: Option<usize>)
        requires
            self.wf(),
        ensures
            match at {
                Some(i) => i < self.rows@.len() && self.rows@[i as int].id == id
                    && self.held@.contains_key(id),
                None => !self.held@.contains_key(id),
            },
    {
        let mut i: usize = 0;
        while i < self.rows.len()
            invariant
                i <= self.rows@.len(),
                self.wf(),
                forall|k: int| 0 <= k < i ==> (#[trigger] self.rows@[k]).id != id,
            decreases self.rows@.len() - i,
        {
            if self.rows[i].id == id {
                return Some(i);
            }
            i += 1;
        }
        None
    }

    /// Every row of the store, in no promised order.
    pub fn find_all(&self) -> (all: Vec<Invoice>)
        requires
            self.wf(),
        ensures
            lists(self@, all@),
    {
        let mut all: Vec<Invoice> = Vec::new();
        let mut i: usize = 0;
        while i < self.rows.len()
            invariant
                i <= self.rows@.len(),
                all@.len() == i,
                forall|k: int| 0 <= k < i ==> #[trigger] all@[k] == self.rows@[k],
            decreases self.rows@.len() - i,
        {
            all.push(self.rows[i]);
            i += 1;
        }
        proof {
            let listing = all@;
            assert forall|k: int| 0 <= k < listing.len() implies listing[k] == self.rows@[k] by {
                assert(all@[k] == self.rows@[k]);
            }
            assert forall|id: u128| #[trigger] self@.contains_key(id) implies exists|k: int|
                0 <= k < listing.len() && #[trigger] listing[k].id == id by {
                let k = choose|k: int| 0 <= k < self.rows@.len() && #[trigger] self.rows@[k].id == id;
                assert(listing[k].id == id);
            }
        }
        all
    }

    /// The row under `id`, if the store holds one.
    pub fn find_by_id(&self, id: u128) -> (row: Option<Invoice>)
        requires
            self.wf(),
        ensures
            row == found(self@, id),
    {
        match self.position(id) {
            Some(i) => Some(self.rows[i]),
            None => None,
        }
    }

    /// Files `invoice` as it is given and answers with the row that is now held.
    /// A row whose identity is taken is refused and changes nothing.
    pub fn create(&mut self, invoice: Invoice) -> (outcome: Result<Invoice, StoreError>)
        requires
            old(self).wf(),
        ensures
            final(self).wf(),
            final(self)@ == rows_after_create(old(self)@, invoice),
            outcome == create_outcome(old(self)@, invoice),
    {
        match self.position(invoice.id) {
            Some(_) => Err(StoreError::ConstraintViolation),
            None => {
                let ghost before = self.rows@;
                self.rows.push(invoice);
                self.held = Ghost(self.held@.insert(invoice.id, invoice));
                proof {
                    assert forall|id: u128| #[trigger]
                        self.held@.contains_key(id) implies exists|i: int|
                        0 <= i < self.rows@.len() && #[trigger] self.rows@[i].id == id by {
                        if id == invoice.id {
                            assert(self.rows@[before.len() as int].id == id);
                        } else {
                            let i = choose|i: int| 0 <= i < before.len() && #[trigger] before[i].id == id;
                            assert(self.rows@[i].id == id);
                        }
                    }
                }
                Ok(invoice)
            },
        }
    }

    /// Writes the amount and the flag of `invoice` over the row with its
    /// identity, stamps the row with `now`, and answers with the row as it
    /// is now held. Without such a row nothing is written.
    pub fn update_at(&mut self, invoice: Invoice, now: Timestamp) -> (outcome: Result<Invoice, StoreError>)
        requires
            old(self).wf(),
        ensures
            final(self).wf(),
            final(self)@ == rows_after_update(old(self)@, invoice, now),
            outcome == update_outcome(old(self)@, invoice, now),
    {
        match self.position(invoice.id) {
            None => Err(StoreError::RowNotFound),
            Some(i) => {
                let ghost before = self.rows@;
                let written = Invoice {
                    id: self.rows[i].id,
                    amount: invoice.amount,
                    paid: invoice.paid,
                    created_at: self.rows[i].created_at,
                    updated_at: now,
                };
                self.rows.set(i, written);
                self.held = Ghost(self.held@.insert(written.id, written));
                proof {
                    assert forall|k: int| 0 <= k < self.rows@.len() implies self.held@.contains_key(
                        #[trigger] self.rows@[k].id,
                    ) && self.held@[self.rows@[k].id] == self.rows@[k] by {
                        if k != i {
                            assert(self.rows@[k] == before[k]);
                            assert(before[k].id != before[i as int].id);
                        }
                    }
                    assert forall|a: int, b: int| 0 <= a < b < self.rows@.len() implies (
                    #[trigger] self.rows@[a]).id != (#[trigger] self.rows@[b]).id by {
                        assert(self.rows@[a].id == before[a].id);
                        assert(self.rows@[b].id == before[b].id);
                    }
                    assert forall|id: u128| #[trigger]
                        self.held@.contains_key(id) implies exists|k: int|
                        0 <= k < self.rows@.len() && #[trigger] self.rows@[k].id == id by {
                        let k = choose|k: int| 0 <= k < before.len() && #[trigger] before[k].id == id;
                        assert(self.rows@[k].id == id);
                    }
                }
                Ok(written)
            },
        }
    }

    /// [`InvoiceTable::update_at`] at the instant that the clock shows.
    ///
    /// Which instant that is cannot be told beforehand; whatever it is, the
    /// outcome and the rows are those of an update at that instant.
    pub fn update(&mut self, invoice: Invoice) -> (outcome: Result<Invoice, StoreError>)
        requires
            old(self).wf(),
        ensures
            final(self).wf(),
            exists|now: Timestamp|
                final(self)@ == rows_after_update(old(self)@, invoice, now) && outcome
                    == #[trigger] update_outcome(old(self)@, invoice, now),
    {
        let now = now_jst_as_utc();
        self.update_at(invoice, now)
    }

    /// Removes the row under `id`. This succeeds whether or not there was
    /// such a row.
    pub fn delete(&mut self, id: u128) -> (outcome: Result<(), StoreError>)
        requires
            old(self).wf(),
        ensures
            final(self).wf(),
            final(self)@ == rows_after_delete(old(self)@, id),
            outcome == Ok::<(), StoreError>(()),
    {
        match self.position(id) {
            None => {
                assert(self.held@.remove(id) =~= self.held@);
                Ok(())
            },
            Some(i) => {
                let ghost before = self.rows@;
                let _ = self.rows.remove(i);
                self.held = Ghost(self.held@.remove(id));
                proof {
                    assert forall|k: int| 0 <= k < self.rows@.len() implies self.held@.contains_key(
                        #[trigger] self.rows@[k].id,
                    ) && self.held@[self.rows@[k].id] == self.rows@[k] by {
                        if k < i {
                            assert(self.rows@[k] == before[k]);
                            assert(before[k].id != before[i as int].id);
                        } else {
                            assert(self.rows@[k] == before[k + 1]);
                            assert(before[i as int].id != before[k + 1].id);
                        }
                    }
                    assert forall|a: int, b: int| 0 <= a < b < self.rows@.len() implies (
                    #[trigger] self.rows@[a]).id != (#[trigger] self.rows@[b]).id by {
                        let a0 = if a < i { a } else { a + 1 };
                        let b0 = if b < i { b } else { b + 1 };
                        assert(self.rows@[a] == before[a0]);
                        assert(self.rows@[b] == before[b0]);
                        assert(before[a0].id != before[b0].id);
                    }
                    assert forall|other: u128| #[trigger]
                        self.held@.contains_key(other) implies exists|k: int|
                        0 <= k < self.rows@.len() && #[trigger] self.rows@[k].id == other by {
                        let k = choose|k: int|
                            0 <= k < before.len() && #[trigger] before[k].id == other;
                        if k < i {
                            assert(self.rows@[k].id == other);
                        } else {
                            assert(self.rows@[k - 1] == before[k]);
                            assert(self.rows@[k - 1].id == other);
                        }
                    }
                }
                Ok(())
            },
        }
    }
}

} // verus!
