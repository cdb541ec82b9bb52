//! The statements of the invoice repository.

use crate::domain::models::invoice::Invoice;
use crate::infrastructure::db::{SqlValue, SqlValueView, Statement};
use vstd::prelude::*;

verus! {

pub const SELECT_INVOICES: &'static str =
    "SELECT id, amount, paid, created_at, updated_at FROM invoices";

pub const SELECT_INVOICE_BY_ID: &'static str =
    "SELECT id, amount, paid, created_at, updated_at FROM invoices WHERE id = $1";

pub const INSERT_INVOICE: &'static str =
    "INSERT INTO invoices (id, amount, paid, created_at, updated_at) VALUES ($1, $2, $3, $4, $5) RETURNING id, amount, paid, created_at, updated_at";

pub const UPDATE_INVOICE: &'static str =
    "UPDATE invoices SET amount = $1, paid = $2, updated_at = NOW() WHERE id = $3 RETURNING id, amount, paid, created_at, updated_at";

pub const DELETE_INVOICE: &'static str = "DELETE FROM invoices WHERE id = $1";

/// The invoice repository on PostgreSQL, over a connection pool of type `P`.
#[derive(Clone)]
pub struct InvoiceRepositoryImpl<P> {
    pub pool: P,
}

impl<P> InvoiceRepositoryImpl<P> {
    pub fn new(pool: P) -> (repository: Self)
        ensures
            repository.pool == pool,
    {
        InvoiceRepositoryImpl { pool }
    }

    /// Selects every invoice.
    pub fn find_all(&self) -> (statement: Statement)
        ensures
            statement@.sql == SELECT_INVOICES@,
            statement@.params == Seq::<SqlValueView>::empty(),
    {
        Statement { sql: SELECT_INVOICES, params: Vec::new() }
    }

    /// Selects the invoice under `id`.
    pub fn find_by_id(&self, id: u128) -> (statement: Statement)
        ensures
            statement@.sql == SELECT_INVOICE_BY_ID@,
            statement@.params == seq![SqlValueView::Uuid(id)],
    {
        let mut params: Vec<SqlValue> = Vec::new();
        params.push(SqlValue::Uuid(id));
        Statement { sql: SELECT_INVOICE_BY_ID, params }
    }

    /// Inserts `invoice` with every column as the record carries it, instants
    /// included, and asks for the row back.
    pub fn create(&self, invoice: &Invoice) -> (statement: Statement)
        ensures
            statement@.sql == INSERT_INVOICE@,
            statement@.params == seq![
                SqlValueView::Uuid(invoice.id),
                SqlValueView::Integer(invoice.amount),
                SqlValueView::Boolean(invoice.paid),
                SqlValueView::TimestampTz(invoice.created_at),
                SqlValueView::TimestampTz(invoice.updated_at),
            ],
    {
        let mut params: Vec<SqlValue> = Vec::new();
        params.push(SqlValue::Uuid(invoice.id));
        params.push(SqlValue::Integer(invoice.amount));
        params.push(SqlValue::Boolean(invoice.paid));
        params.push(SqlValue::TimestampTz(invoice.created_at));
        params.push(SqlValue::TimestampTz(invoice.updated_at));
        Statement { sql: INSERT_INVOICE, params }
    }

    /// Writes the amount and the flag of `invoice` over the row with its
    /// identity and asks for the row back. The instant of change is not an
    /// argument: the statement has the server set it to what its own clock
    /// reads at the write, so the instants that `invoice` carries are not
    /// sent.
    pub fn update(&self, invoice: &Invoice) -> (statement: Statement)
        ensures
            statement@.sql == UPDATE_INVOICE@,
            statement@.params == seq![
                SqlValueView::Integer(invoice.amount),
                SqlValueView::Boolean(invoice.paid),
                SqlValueView::Uuid(invoice.id),
            ],
    {
        let mut params: Vec<SqlValue> = Vec::new();
        params.push(SqlValue::Integer(invoice.amount));
        params.push(SqlValue::Boolean(invoice.paid));
        params.push(SqlValue::Uuid(invoice.id));
        Statement { sql: UPDATE_INVOICE, params }
    }

    /// Deletes the row under `id`.
    pub fn delete(&self, id: u128) -> (statement: Statement)
        ensures
            statement@.sql == DELETE_INVOICE@,
            statement@.params == seq![SqlValueView::Uuid(id)],
    {
        let mut params: Vec<SqlValue> = Vec::new();
        params.push(SqlValue::Uuid(id));
        Statement { sql: DELETE_INVOICE, params }
    }
}

} // verus!
