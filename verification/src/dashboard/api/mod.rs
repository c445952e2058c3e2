//! The endpoints of the front page: the projects of a user.
pub mod get_dashboard_projects;
