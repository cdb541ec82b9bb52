//! The invoice service.
//!
//! Listing, fetching and deleting hand the request to the store and the
//! answer back as they are. Creating and updating decide something first:
//! which row the store is given, or that it is given none.

use crate::domain::models::identity::is_version_7;
use crate::domain::models::instant::Timestamp;
use crate::domain::models::invoice::{fresh_invoice, Invoice};
use crate::domain::repositories::error::StoreError;
use crate::domain::repositories::invoice_repository::{
    create_outcome,
    found,
    keyed_by_identity,
    rows_after_create,
    rows_after_update,
    update_outcome,
};
use vstd::prelude::*;

verus! {

/// The row that an update hands to the store: `existing` with its amount and
/// flag replaced, both, by what the caller supplied.
pub open spec fn replaced(existing: Invoice, amount: i32, paid: bool) -> Invoice {
    Invoice {
        id: existing.id,
        amount,
        paid,
        created_at: existing.created_at,
        updated_at: existing.updated_at,
    }
}

/// What an update does once the store has answered the lookup with
/// `existing`: it hands over a row, or it ends with
/// [`StoreError::RowNotFound`] and hands the store nothing.
pub open spec fn update_plan(existing: Option<Invoice>, amount: i32, paid: bool) -> Result<
    Invoice,
    StoreError,
> {
    match existing {
        Some(row) => Ok(replaced(row, amount, paid)),
        None => Err(StoreError::RowNotFound),
    }
}

/// What an update does once the lookup has come back, whatever it came back
/// with: a lookup that failed is handed on as it failed, and the store is
/// given nothing; one that was answered is decided by [`update_plan`].
pub open spec fn update_plan_after_lookup(
    lookup: Result<Option<Invoice>, StoreError>,
    amount: i32,
    paid: bool,
) -> Result<Invoice, StoreError> {
    match lookup {
        Ok(existing) => update_plan(existing, amount, paid),
        Err(error) => Err(error),
    }
}

/// The invoice service over a repository of type `T`. It holds that one
/// repository and nothing else.
#[derive(Clone)]
pub struct InvoiceUsecase<T> {
    repository: T,
}

impl<T> View for InvoiceUsecase<T> {
    type V = T;

    /// The repository that the service holds.
    closed spec fn view(&self) -> T {
        self.repository
    }
}

impl<T> InvoiceUsecase<T> {
    pub fn new(repository: T) -> (usecase: Self)
        ensures
            usecase@ == repository,
    {
        InvoiceUsecase { repository }
    }

    /// The repository to send the store calls to.
    pub fn repository(&self) -> (repository: &T)
        ensures
            *repository == self@,
    {
        &self.repository
    }

    /// The row to hand to the store's create: an invoice over `amount` with a
    /// new identity, not paid, created and changed at one instant.
    pub fn create_invoice(&self, amount: i32) -> (invoice: Invoice)
        ensures
            invoice == fresh_invoice(invoice.id, invoice.created_at, amount),
            is_version_7(invoice.id),
    {
        Invoice::new(amount)
    }

    /// Decides an update from what the lookup of the identity gave.
    ///
    /// With a row, the answer is that row with both supplied fields written
    /// over it, to be handed to the store's update. Without one, the answer
    /// is [`StoreError::RowNotFound`], and the store is not called again.
    pub fn update_invoice(&self, existing: Option<Invoice>, amount: i32, paid: bool) -> (plan:
        Result<Invoice, StoreError>)
        ensures
            plan == update_plan(existing, amount, paid),
    {
        match existing {
            Some(mut invoice) => {
                invoice.amount = amount;
                invoice.paid = paid;
                Ok(invoice)
            },
            None => Err(StoreError::RowNotFound),
        }
    }

    /// Decides an update from the whole outcome of the lookup.
    ///
    /// A lookup that failed ends the update with that same failure: it is
    /// not turned into [`StoreError::RowNotFound`], and the store is not
    /// called again. A lookup that was answered is decided as
    /// [`InvoiceUsecase::update_invoice`] decides it.
    pub fn update_invoice_after_lookup(
        &self,
        lookup: Result<Option<Invoice>, StoreError>,
        amount: i32,
        paid: bool,
    ) -> (plan: Result<Invoice, StoreError>)
        ensures
            plan == update_plan_after_lookup(lookup, amount, paid),
    {
        match lookup {
            Ok(existing) => self.update_invoice(existing, amount, paid),
            Err(error) => Err(error),
        }
    }
}

/// An update whose lookup failed ends with the failure of the lookup,
/// whichever it was, and hands the store no row.
pub proof fn lemma_failed_lookup_is_handed_on(error: StoreError, amount: i32, paid: bool)
    ensures
        update_plan_after_lookup(Err::<Option<Invoice>, StoreError>(error), amount, paid) == Err::<
            Invoice,
            StoreError,
        >(error),
{
}

/// An update of an identity that the store does not hold ends with
/// [`StoreError::RowNotFound`]. The plan then carries no row, and only a row
/// of a plan is ever handed to the store, so nothing is written.
pub proof fn lemma_update_of_missing_row_is_refused(
    rows: Map<u128, Invoice>,
    id: u128,
    amount: i32,
    paid: bool,
)
    requires
        !rows.contains_key(id),
    ensures
        update_plan(found(rows, id), amount, paid) == Err::<Invoice, StoreError>(
            StoreError::RowNotFound,
        ),
{
}

/// An update of an identity that the store holds replaces the amount and the
/// flag by what was supplied, whatever they were before, keeps the identity
/// and the creation instant, and takes the instant of change from the
/// store's clock. The store answers with that row and holds it afterwards.
pub proof fn lemma_update_replaces_every_field(
    rows: Map<u128, Invoice>,
    id: u128,
    amount: i32,
    paid: bool,
    now: Timestamp,
)
    requires
        keyed_by_identity(rows),
        rows.contains_key(id),
    ensures
        update_plan(found(rows, id), amount, paid) is Ok,
        ({
            let handed = update_plan(found(rows, id), amount, paid)->Ok_0;
            let written = Invoice {
                id,
                amount,
                paid,
                created_at: rows[id].created_at,
                updated_at: now,
            };
            &&& handed == replaced(rows[id], amount, paid)
            &&& update_outcome(rows, handed, now) == Ok::<Invoice, StoreError>(written)
            &&& found(rows_after_update(rows, handed, now), id) == Some(written)
        }),
{
}

/// An invoice that was created and filed is found again under its identity,
/// field for field as the create answered it.
pub proof fn lemma_created_invoice_is_found(
    rows: Map<u128, Invoice>,
    id: u128,
    now: Timestamp,
    amount: i32,
)
    requires
        !rows.contains_key(id),
    ensures
        create_outcome(rows, fresh_invoice(id, now, amount)) == Ok::<Invoice, StoreError>(
            fresh_invoice(id, now, amount),
        ),
        found(rows_after_create(rows, fresh_invoice(id, now, amount)), id) == Some(
            fresh_invoice(id, now, amount),
        ),
{
}

} // verus!
