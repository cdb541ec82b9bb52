//! The PostgreSQL side of the repositories: which statement each operation
//! sends, and with which arguments.

pub mod db;
pub mod invoice_repository;
pub mod todo_repository;
