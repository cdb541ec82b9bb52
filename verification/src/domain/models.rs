//! The two records, and the instants and identities they carry.

pub mod identity;
pub mod instant;
pub mod invoice;
pub mod todo;
