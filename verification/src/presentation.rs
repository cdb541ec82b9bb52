//! From the outcome of a service call to what goes back over HTTP.

pub mod handlers;
pub mod response;
