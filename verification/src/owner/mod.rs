//! What the dashboard shows of an owner.
pub mod api;
