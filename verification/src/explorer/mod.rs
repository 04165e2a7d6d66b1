//! The read side: what the HTTP surface answers, computed from records.

pub mod handlers;
pub mod models;
pub mod routes;
