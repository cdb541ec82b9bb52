//! What the store operations mean, stated over a map from identities to rows,
//! and tables in memory that are proved to behave so.

pub mod error;
pub mod invoice_repository;
pub mod todo_repository;
