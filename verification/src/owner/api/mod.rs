//! The endpoints of an owner: the members of a project.
pub mod get_project_members;
