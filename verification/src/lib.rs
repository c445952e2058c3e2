//! Decision logic of a git push-to-deploy server: smart-HTTP framing and
//! responses, push authentication, working-copy synchronisation and the
//! build queue with its executor.
pub mod auth;
pub mod codec;
pub mod dashboard;
pub mod executor;
pub mod files;
pub mod git;
pub mod http;
pub mod ids;
pub mod owner;
pub mod pktline;
pub mod projects;
pub mod queue;
pub mod repo;
pub mod sync;
pub mod text;
