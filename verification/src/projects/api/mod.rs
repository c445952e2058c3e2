//! The endpoints of a project: whether a user may see it, the state of its
//! latest build, and the listing of its source tree.
pub mod check_project_access;
pub mod get_project_status;
pub mod view_project_tree;
