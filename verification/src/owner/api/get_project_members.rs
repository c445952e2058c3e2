//! The users with whom a project is shared.
use vstd::prelude::*;

verus! {

/// A user with whom a project is shared. The time is in milliseconds since
/// the epoch.
#[derive(Debug, Clone, PartialEq, Eq)]
pub struct ProjectShare {
    pub user_id: u128,
    pub username: String,
    pub name: String,
    pub created_at: i64,
}

/// What the store answered when asked for the shares of a project.
#[derive(Debug, Clone, PartialEq, Eq)]
pub enum SharesLookup {
    /// There is no such project.
    ProjectMissing,
    /// The shares of the project, oldest first.
    Shares(Vec<ProjectShare>),
}

/// The answer of the endpoint.
#[derive(Debug, Clone, PartialEq, Eq)]
pub enum SharesReply {
    /// Status 200 with the shares.
    Shares(Vec<ProjectShare>),
    /// An error with this status.
    Failure { status: u16, message: String },
}

/// Whether `reply` is the failure with this status and message.
pub open spec fn is_failure(reply: SharesReply, status: u16, message: Seq<char>) -> bool {
    match reply {
        SharesReply::Failure { status: s, message: m } => s == status && m@ == message,
        SharesReply::Shares(_) => false,
    }
}

/// Answers a request by a user who is not signed in.
pub fn unauthorized() -> (reply: SharesReply)
    ensures
        is_failure(reply, 401, "Unauthorized"@),
{
    SharesReply::Failure { status: 401, message: "Unauthorized".to_owned() }
}

/// Answers a request by a signed-in user: the shares as the store gave
/// them, or 404 where the project is not there.
pub fn get(lookup: SharesLookup) -> (reply: SharesReply)
    ensures
        match lookup {
            SharesLookup::ProjectMissing => is_failure(reply, 404, "Project not found"@),
            SharesLookup::Shares(shares) => reply == SharesReply::Shares(shares),
        },
{
    match lookup {
        SharesLookup::ProjectMissing => SharesReply::Failure {
            status: 404,
            message: "Project not found".to_owned(),
        },
        SharesLookup::Shares(shares) => SharesReply::Shares(shares),
    }
}

} // verus!
