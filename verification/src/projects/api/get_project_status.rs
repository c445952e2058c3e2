//! The state of the latest build of a project.
use vstd::prelude::*;

verus! {

/// The status of a build record.
#[allow(non_camel_case_types)]
#[derive(Debug, Clone, Copy, PartialEq, Eq)]
pub enum BuildState {
    PENDING,
    BUILDING,
    SUCCESSFUL,
    FAILED,
}

impl BuildState {
    /// The position of the status in the life of a build.
    pub open spec fn rank(self) -> nat {
        match self {
            BuildState::PENDING => 0,
            BuildState::BUILDING => 1,
            BuildState::SUCCESSFUL => 2,
            BuildState::FAILED => 2,
        }
    }

    /// Whether a record in this status may go to `next`: from `pending` to
    /// `building`, and from `building` to `successful` or `failed`.
    pub open spec fn precedes(self, next: BuildState) -> bool {
        self.rank() + 1 == next.rank()
    }

    /// Whether a record in this status may go to `next`.
    pub fn can_become(&self, next: &BuildState) -> (b: bool)
        ensures
            b == self.precedes(*next),
    {
        match (self, next) {
            (BuildState::PENDING, BuildState::BUILDING) => true,
            (BuildState::BUILDING, BuildState::SUCCESSFUL) => true,
            (BuildState::BUILDING, BuildState::FAILED) => true,
            _ => false,
        }
    }

    /// The name of the status as the store writes it.
    pub fn name(&self) -> (s: &'static str)
        ensures
            s@ == match *self {
                BuildState::PENDING => "pending"@,
                BuildState::BUILDING => "building"@,
                BuildState::SUCCESSFUL => "successful"@,
                BuildState::FAILED => "failed"@,
            },
    {
        match self {
            BuildState::PENDING => "pending",
            BuildState::BUILDING => "building",
            BuildState::SUCCESSFUL => "successful",
            BuildState::FAILED => "failed",
        }
    }
}

/// A build record as the store holds it. Times are in milliseconds since
/// the epoch.
#[derive(Debug, Clone, Copy, PartialEq, Eq)]
pub struct BuildRow {
    pub id: u128,
    pub project_id: u128,
    pub status: BuildState,
    pub created_at: i64,
    pub updated_at: i64,
    pub finished_at: Option<i64>,
}

/// What the store answered when asked for the latest build of a project.
#[derive(Debug, Clone, Copy, PartialEq, Eq)]
pub enum StatusLookup {
    /// There is no such project.
    ProjectMissing,
    /// The store failed when asked for the project.
    ProjectFailed,
    /// The store failed when asked for the build, or the project has none.
    BuildFailed,
    /// The latest build.
    Build(BuildRow),
}

/// The state of a project as the endpoint reports it.
#[derive(Debug, Clone, PartialEq, Eq)]
pub struct ProjectStatus {
    pub project: String,
    pub owner: String,
    pub status: BuildState,
    pub build_id: u128,
    pub created_at: i64,
    pub updated_at: i64,
    pub finished_at: Option<i64>,
}

/// The answer of the endpoint.
#[derive(Debug, Clone, PartialEq, Eq)]
pub enum StatusReply {
    /// An error with this status.
    Failure { status: u16, error: String },
    /// Status 200 with the state of the project, not to be cached.
    Status(ProjectStatus),
}

/// The mathematical content of a [`StatusReply`].
pub enum StatusReplyView {
    Failure { status: u16, error: Seq<char> },
    Status { project: Seq<char>, owner: Seq<char>, build: BuildRow },
}

/// What the endpoint answers for the project `project` of `owner`.
pub open spec fn status_reply(owner: Seq<char>, project: Seq<char>, lookup: StatusLookup) -> StatusReplyView {
    match lookup {
        StatusLookup::ProjectMissing => StatusReplyView::Failure {
            status: 404,
            error: "Project not found"@,
        },
        StatusLookup::ProjectFailed => StatusReplyView::Failure {
            status: 500,
            error: "Database error"@,
        },
        StatusLookup::BuildFailed => StatusReplyView::Failure {
            status: 500,
            error: "Failed to get build status"@,
        },
        StatusLookup::Build(build) => StatusReplyView::Status { project, owner, build },
    }
}

/// Whether `reply` has the content `view`: the identifier of the project
/// that the build belongs to is not reported.
pub open spec fn reply_is(reply: StatusReply, view: StatusReplyView) -> bool {
    match (reply, view) {
        (
            StatusReply::Failure { status, error },
            StatusReplyView::Failure { status: wanted, error: text },
        ) => status == wanted && error@ == text,
        (StatusReply::Status(s), StatusReplyView::Status { project, owner, build }) => {
            &&& s.project@ == project
            &&& s.owner@ == owner
            &&& s.status == build.status
            &&& s.build_id == build.id
            &&& s.created_at == build.created_at
            &&& s.updated_at == build.updated_at
            &&& s.finished_at == build.finished_at
        },
        _ => false,
    }
}

/// Answers a request for the state of the project `project` of `owner`.
pub fn get(owner: &str, project: &str, lookup: StatusLookup) -> (reply: StatusReply)
    ensures
        reply_is(reply, status_reply(owner@, project@, lookup)),
{
    match lookup {
        StatusLookup::ProjectMissing => StatusReply::Failure {
            status: 404,
            error: "Project not found".to_owned(),
        },
        StatusLookup::ProjectFailed => StatusReply::Failure {
            status: 500,
            error: "Database error".to_owned(),
        },
        StatusLookup::BuildFailed => StatusReply::Failure {
            status: 500,
            error: "Failed to get build status".to_owned(),
        },
        StatusLookup::Build(build) => StatusReply::Status(
            ProjectStatus {
                project: project.to_owned(),
                owner: owner.to_owned(),
                status: build.status,
                build_id: build.id,
                created_at: build.created_at,
                updated_at: build.updated_at,
                finished_at: build.finished_at,
            },
        ),
    }
}

} // verus!
