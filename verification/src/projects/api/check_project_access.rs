//! Whether the user who asks may see a project.
use vstd::prelude::*;

verus! {

/// What the store answered when asked whether a user has access.
#[derive(Debug, Clone, Copy, PartialEq, Eq)]
pub enum AccessLookup {
    /// The user owns the project or shares it.
    Granted,
    /// There is no such project, or the user has no part in it.
    Denied,
    /// The store failed.
    Failed,
}

/// The answer of the endpoint.
#[derive(Debug, Clone, PartialEq, Eq)]
pub enum AccessReply {
    /// Status 200: the user has access.
    Granted,
    /// An error with this status.
    Failure { status: u16, message: String },
}

/// Whether `reply` is the failure with this status and message.
pub open spec fn is_failure(reply: AccessReply, status: u16, message: Seq<char>) -> bool {
    match reply {
        AccessReply::Failure { status: s, message: m } => s == status && m@ == message,
        AccessReply::Granted => false,
    }
}

/// Answers a request by a user who is not signed in.
pub fn unauthorized() -> (reply: AccessReply)
    ensures
        is_failure(reply, 401, "Unauthorized"@),
{
    AccessReply::Failure { status: 401, message: "Unauthorized".to_owned() }
}

/// Answers a request by a signed-in user. A store that fails is taken as no
/// access.
pub fn get(access: AccessLookup) -> (reply: AccessReply)
    ensures
        match access {
            AccessLookup::Granted => reply is Granted,
            _ => is_failure(reply, 404, "Project not found or you don't have access"@),
        },
{
    match access {
        AccessLookup::Granted => AccessReply::Granted,
        _ => AccessReply::Failure {
            status: 404,
            message: "Project not found or you don't have access".to_owned(),
        },
    }
}

} // verus!
