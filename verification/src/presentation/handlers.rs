//! One handler per route: the part of it that follows the service call.

pub mod invoice_handler;
pub mod todo_handler;
