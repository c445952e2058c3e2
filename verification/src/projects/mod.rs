//! What the dashboard shows of a project.
pub mod api;
