//! What the service decides between its calls on the store.

pub mod invoice_usecase;
pub mod todo_usecase;
