//! The front page of the dashboard.
pub mod api;
