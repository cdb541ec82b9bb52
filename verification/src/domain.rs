//! Records and the meaning of the store operations.

pub mod models;
pub mod repositories;
