//! The invoice routes.
//!
//! Each function takes what the service call of its route came back with and
//! gives the reply. A record goes out without its instants.

use crate::domain::models::invoice::Invoice;
use crate::domain::repositories::error::StoreError;
use crate::presentation::response::{Body, Reply, Status};
use vstd::prelude::*;
use vstd::std_specs::convert::FromSpecImpl;

verus! {

pub const INVOICE_NOT_FOUND: &'static str = "Invoice not found";

pub const FAILED_TO_FETCH_INVOICES: &'static str = "Failed to fetch invoices";

pub const FAILED_TO_FETCH_INVOICE: &'static str = "Failed to fetch invoice";

pub const FAILED_TO_CREATE_INVOICE: &'static str = "Failed to create invoice";

pub const FAILED_TO_UPDATE_INVOICE: &'static str = "Failed to update invoice";

pub const FAILED_TO_DELETE_INVOICE: &'static str = "Failed to delete invoice";

/// The body of a request to create an invoice.
#[derive(Debug, Clone, Copy, PartialEq, Eq, Structural)]
pub struct CreateInvoiceRequest {
    pub amount: i32,
}

/// The body of a request to update an invoice. Both fields are required: an
/// update replaces them both.
#[derive(Debug, Clone, Copy, PartialEq, Eq, Structural)]
pub struct UpdateInvoiceRequest {
    pub amount: i32,
    pub paid: bool,
}

/// An invoice on the wire.
#[derive(Debug, Clone, Copy, PartialEq, Eq, Structural)]
pub struct InvoiceResponse {
    pub id: u128,
    pub amount: i32,
    pub paid: bool,
}

/// The wire form of `invoice`: its identity, amount and flag.
pub open spec fn response_of(invoice: Invoice) -> InvoiceResponse {
    InvoiceResponse { id: invoice.id, amount: invoice.amount, paid: invoice.paid }
}

impl From<Invoice> for InvoiceResponse {
    /// The wire form of an invoice: what [`response_of`] names, and nothing
    /// of its instants.
    fn from(invoice: Invoice) -> (response: InvoiceResponse)
        ensures
            response == response_of(invoice),
    {
        InvoiceResponse { id: invoice.id, amount: invoice.amount, paid: invoice.paid }
    }
}

impl FromSpecImpl<Invoice> for InvoiceResponse {
    open spec fn obeys_from_spec() -> bool {
        true
    }

    open spec fn from_spec(invoice: Invoice) -> InvoiceResponse {
        response_of(invoice)
    }
}

/// The reply to a listing: `200` with every invoice in its wire form, in the
/// order in which the service gave them, or `500` if the service failed.
pub fn get_all_invoices(outcome: Result<Vec<Invoice>, StoreError>) -> (reply: Reply<
    InvoiceResponse,
>)
    ensures
        match outcome {
            Ok(invoices) => {
                &&& reply.status == Status::Success
                &&& reply.body matches Body::Many(listed)
                &&& listed@ == invoices@.map_values(|invoice: Invoice| response_of(invoice))
            },
            Err(_) => reply.says(Status::InternalServerError, FAILED_TO_FETCH_INVOICES@),
        },
{
    match outcome {
        Ok(invoices) => {
            let mut listed: Vec<InvoiceResponse> = Vec::new();
            let mut i: usize = 0;
            while i < invoices.len()
                invariant
                    i <= invoices@.len(),
                    listed@.len() == i,
                    forall|k: int| 0 <= k < i ==> #[trigger] listed@[k] == response_of(invoices@[k]),
                decreases invoices@.len() - i,
            {
                listed.push(InvoiceResponse::from(invoices[i]));
                i += 1;
            }
            Reply { status: Status::Success, body: Body::Many(listed) }
        },
        Err(_) => Reply {
            status: Status::InternalServerError,
            body: Body::Message(FAILED_TO_FETCH_INVOICES),
        },
    }
}

/// The reply to fetching one invoice: `200` with the invoice, `404` if there
/// is none, `500` if the service failed.
pub fn get_invoice_by_id(outcome: Result<Option<Invoice>, StoreError>) -> (reply: Reply<
    InvoiceResponse,
>)
    ensures
        match outcome {
            Ok(Some(invoice)) => reply.status == Status::Success && reply.body == Body::One(
                response_of(invoice),
            ),
            Ok(None) => reply.says(Status::NotFound, INVOICE_NOT_FOUND@),
            Err(_) => reply.says(Status::InternalServerError, FAILED_TO_FETCH_INVOICE@),
        },
{
    match outcome {
        Ok(Some(invoice)) => Reply {
            status: Status::Success,
            body: Body::One(InvoiceResponse::from(invoice)),
        },
        Ok(None) => Reply { status: Status::NotFound, body: Body::Message(INVOICE_NOT_FOUND) },
        Err(_) => Reply {
            status: Status::InternalServerError,
            body: Body::Message(FAILED_TO_FETCH_INVOICE),
        },
    }
}

/// The reply to a create: `201` with the invoice, or `500` whatever the
/// failure.
pub fn create_invoice(outcome: Result<Invoice, StoreError>) -> (reply: Reply<InvoiceResponse>)
    ensures
        match outcome {
            Ok(invoice) => reply.status == Status::Created && reply.body == Body::One(
                response_of(invoice),
            ),
            Err(_) => reply.says(Status::InternalServerError, FAILED_TO_CREATE_INVOICE@),
        },
{
    match outcome {
        Ok(invoice) => Reply {
            status: Status::Created,
            body: Body::One(InvoiceResponse::from(invoice)),
        },
        Err(_) => Reply {
            status: Status::InternalServerError,
            body: Body::Message(FAILED_TO_CREATE_INVOICE),
        },
    }
}

/// The reply to an update: `200` with the invoice as it is now, `404` if no
/// row has the identity, `500` for any other failure.
pub fn update_invoice(outcome: Result<Invoice, StoreError>) -> (reply: Reply<InvoiceResponse>)
    ensures
        match outcome {
            Ok(invoice) => reply.status == Status::Success && reply.body == Body::One(
                response_of(invoice),
            ),
            Err(StoreError::RowNotFound) => reply.says(Status::NotFound, INVOICE_NOT_FOUND@),
            Err(_) => reply.says(Status::InternalServerError, FAILED_TO_UPDATE_INVOICE@),
        },
{
    match outcome {
        Ok(invoice) => Reply {
            status: Status::Success,
            body: Body::One(InvoiceResponse::from(invoice)),
        },
        Err(StoreError::RowNotFound) => Reply {
            status: Status::NotFound,
            body: Body::Message(INVOICE_NOT_FOUND),
        },
        Err(_) => Reply {
            status: Status::InternalServerError,
            body: Body::Message(FAILED_TO_UPDATE_INVOICE),
        },
    }
}

/// The reply to a delete: `204` without a body, `404` if the service reports
/// that no row has the identity, `500` for any other failure.
///
/// A store that behaves as this crate describes deletes without complaint
/// where there is no row, so behind such a store the `404` is never sent; it
/// is kept for a service that does report the missing row.
pub fn delete_invoice(outcome: Result<(), StoreError>) -> (reply: Reply<InvoiceResponse>)
    ensures
        match outcome {
            Ok(_) => reply.is_bare(Status::NoContent),
            Err(StoreError::RowNotFound) => reply.says(Status::NotFound, INVOICE_NOT_FOUND@),
            Err(_) => reply.says(Status::InternalServerError, FAILED_TO_DELETE_INVOICE@),
        },
{
    match outcome {
        Ok(_) => Reply { status: Status::NoContent, body: Body::Empty },
        Err(StoreError::RowNotFound) => Reply {
            status: Status::NotFound,
            body: Body::Message(INVOICE_NOT_FOUND),
        },
        Err(_) => Reply {
            status: Status::InternalServerError,
            body: Body::Message(FAILED_TO_DELETE_INVOICE),
        },
    }
}

} // verus!
