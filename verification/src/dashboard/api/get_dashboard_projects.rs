//! The projects that a user owns or shares.
use vstd::prelude::*;

verus! {

/// A project on the front page.
#[derive(Debug, Clone, PartialEq, Eq)]
pub struct Project {
    pub id: u128,
    pub name: String,
    pub owner_name: String,
}

/// The projects of a user, with the number of those that the user owns and
/// of those that others share with the user.
#[derive(Debug, Clone, PartialEq, Eq)]
pub struct DashboardProjectResponse {
    pub data: Vec<Project>,
    pub owned_count: i32,
    pub shared_count: i32,
}

/// The answer of the endpoint.
#[derive(Debug, Clone, PartialEq, Eq)]
pub enum DashboardReply {
    /// Status 200 with the projects.
    Projects(DashboardProjectResponse),
    /// An error with this status.
    Failure { status: u16, message: String },
}

/// Whether `reply` is the failure with this status and message.
pub open spec fn is_failure(reply: DashboardReply, status: u16, message: Seq<char>) -> bool {
    match reply {
        DashboardReply::Failure { status: s, message: m } => s == status && m@ == message,
        DashboardReply::Projects(_) => false,
    }
}

/// The number of projects that others share with a user who sees `total`
/// projects and owns `owned` of them; the greatest or least number that
/// fits where the difference does not.
pub open spec fn shared(total: nat, owned: i32) -> i32 {
    let difference = total - owned;
    if difference > i32::MAX {
        i32::MAX
    } else if difference < i32::MIN {
        i32::MIN
    } else {
        difference as i32
    }
}

/// Answers a request by a user who is not signed in.
pub fn unauthorized() -> (reply: DashboardReply)
    ensures
        is_failure(reply, 401, "Unauthorized"@),
{
    DashboardReply::Failure { status: 401, message: "Unauthorized".to_owned() }
}

/// Answers a request by a signed-in user. `projects` is what the store gave
/// when asked for the user's projects, nothing where it failed; `owned` is
/// the number of projects that the user owns, nothing where the store could
/// not count them, which is taken as none.
pub fn get(projects: Option<Vec<Project>>, owned: Option<i32>) -> (reply: DashboardReply)
    ensures
        match projects {
            None => is_failure(reply, 500, "Failed to query database"@),
            Some(data) => {
                let owned_count = match owned {
                    Some(n) => n,
                    None => 0i32,
                };
                reply == DashboardReply::Projects(
                    DashboardProjectResponse {
                        data,
                        owned_count,
                        shared_count: shared(data@.len(), owned_count),
                    },
                )
            },
        },
{
    let data = match projects {
        Some(data) => data,
        None => {
            return DashboardReply::Failure {
                status: 500,
                message: "Failed to query database".to_owned(),
            };
        },
    };
    let owned_count: i32 = match owned {
        Some(n) => n,
        None => 0,
    };
    let difference: i128 = data.len() as i128 - owned_count as i128;
    let shared_count: i32 = if difference > i32::MAX as i128 {
        i32::MAX
    } else if difference < i32::MIN as i128 {
        i32::MIN
    } else {
        difference as i32
    };
    DashboardReply::Projects(DashboardProjectResponse { data, owned_count, shared_count })
}

} // verus!
