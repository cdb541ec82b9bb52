//! The invoice record.

use crate::domain::models::identity::{draw_version_7, is_version_7};
use crate::domain::models::instant::{now_jst_as_utc, Timestamp};
use vstd::prelude::*;

verus! {

/// An invoice: an amount, whether it was paid, and when the record was
/// created and last changed.
#[derive(Debug, Clone, Copy, PartialEq, Eq, Structural)]
pub struct Invoice {
    pub id: u128,
    pub amount: i32,
    pub paid: bool,
    pub created_at: Timestamp,
    pub updated_at: Timestamp,
}

/// The invoice that a create request yields once an identity and an instant
/// are at hand: unpaid, with both of its instants equal.
pub open spec fn fresh_invoice(id: u128, now: Timestamp, amount: i32) -> Invoice {
    Invoice { id, amount, paid: false, created_at: now, updated_at: now }
}

impl Invoice {
    /// The record was not changed before it was created.
    pub open spec fn valid(self) -> bool {
        self.updated_at.at_or_after(self.created_at)
    }

    /// An invoice over `amount` with a newly drawn identity, created now and
    /// not paid.
    ///
    /// The identity and the instant come from outside, so the contract fixes
    /// everything else: the amount, the flag, that the two instants are one
    /// and the same, and the layout of the identity.
    pub fn new(amount: i32) -> (invoice: Invoice)
        ensures
            invoice.amount == amount,
            !invoice.paid,
            invoice.created_at == invoice.updated_at,
            invoice.valid(),
            is_version_7(invoice.id),
            invoice == fresh_invoice(invoice.id, invoice.created_at, amount),
    {
        let now = now_jst_as_utc();
        let id = draw_version_7();
        Invoice::with_identity(id, now, amount)
    }

    /// The invoice that [`Invoice::new`] builds, for a given identity and
    /// instant.
    pub fn with_identity(id: u128, now: Timestamp, amount: i32) -> (invoice: Invoice)
        ensures
            invoice == fresh_invoice(id, now, amount),
    {
        Invoice { id, amount, paid: false, created_at: now, updated_at: now }
    }

    /// Decides [`Invoice::valid`].
    pub fn is_valid(&self) -> (b: bool)
        ensures
            b == self.valid(),
    {
        self.updated_at.is_at_or_after(&self.created_at)
    }
}

/// An invoice that was just built is valid, unpaid, and carries one instant
/// twice, whatever identity and instant it got.
pub proof fn lemma_fresh_invoice_valid(id: u128, now: Timestamp, amount: i32)
    ensures
        fresh_invoice(id, now, amount).valid(),
        fresh_invoice(id, now, amount).created_at == fresh_invoice(id, now, amount).updated_at,
        !fresh_invoice(id, now, amount).paid,
{
}

} // verus!
