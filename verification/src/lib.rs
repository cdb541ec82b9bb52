//! The verified core of a small service that keeps two kinds of records, tasks
//! and invoices, in a relational store.
//!
//! Nothing in this crate waits on a socket. Each layer holds the part of the
//! service that is a function of plain values:
//!
//! * [`domain`] defines the records, their validity, and what the five
//!   operations of a record store mean, together with an in-memory table that
//!   is proved to behave that way;
//! * [`usecase`] decides what a create or an update hands to the store;
//! * [`infrastructure`] writes the parameterized statements that a PostgreSQL
//!   adapter sends;
//! * [`presentation`] turns the outcome of a service call into a status and a
//!   body.
//!
//! The program around the crate performs the store round trips and the HTTP
//! exchange, and calls into these functions between them.

pub mod domain;
pub mod usecase;
pub mod infrastructure;
pub mod presentation;
