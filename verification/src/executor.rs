//! The build executor: what is asked of the store and of the builder for one
//! build, in which order, and what each answer leads to.
//!
//! A [`BuildRun`] is a state machine. [`trigger_build`] starts it and names
//! the first thing to do; each answer is handed to [`BuildRun::step`], which
//! names the next. The record of a build goes from `pending` to `building`
//! and from there to `successful` or `failed`, and never back.
use vstd::prelude::*;
use crate::ids::{build_id_text, new_build_id, uuid_text};
use crate::projects::api::get_project_status::BuildState;
use crate::queue::{BuildItem, Job};
use crate::text::{join, decimal, decimal_string};

verus! {

/// Why a build did not succeed.
#[derive(Debug, Clone, PartialEq, Eq)]
pub struct BuildError {
    pub message: String,
    /// The text of the store's error, where the store failed.
    pub inner_error: Option<String>,
}

/// The mathematical content of a [`BuildError`].
pub struct Failure {
    pub message: Seq<char>,
    pub inner_error: Option<Seq<char>>,
}

/// The characters of an optional string.
pub open spec fn text_of(s: Option<String>) -> Option<Seq<char>> {
    match s {
        Some(s) => Some(s@),
        None => None,
    }
}

impl View for BuildError {
    type V = Failure;

    open spec fn view(&self) -> Failure {
        Failure { message: self.message@, inner_error: text_of(self.inner_error) }
    }
}

/// The mathematical content of the result of a build: the subdomain under
/// which the container answers, or the failure.
pub open spec fn outcome_of(r: Result<String, BuildError>) -> Result<Seq<char>, Failure> {
    match r {
        Ok(subdomain) => Ok(subdomain@),
        Err(e) => Err(e@),
    }
}

/// An answer of the store or of the builder.
#[derive(Debug, Clone, PartialEq, Eq)]
pub enum BuildEvent {
    /// The project exists and has this identifier.
    ProjectFound(u128),
    /// There is no such project.
    ProjectMissing,
    /// The build record exists.
    RecordFound,
    /// There is no such build record.
    RecordMissing,
    /// The store wrote what it was asked to write.
    Stored,
    /// The store failed, with this error.
    StoreFailed(String),
    /// The builder made a container.
    Built { ip: String, port: i32, build_log: String },
    /// The builder failed, with this message.
    BuildFailed(String),
    /// The builder did not end in time and was abandoned.
    BuildTimedOut,
    /// The project has a domain of this name.
    DomainFound(String),
    /// The project has no domain.
    DomainMissing,
}

/// Where a build stands: what has been asked and not yet answered.
#[derive(Debug, PartialEq, Eq)]
pub enum Stage {
    FindingProject,
    FindingBuild { project_id: u128 },
    Marking { project_id: u128 },
    Running { project_id: u128 },
    RecordingSuccess { project_id: u128, ip: String, port: i32, log: String },
    RecordingFailure { log: String },
    RecordingTimeout,
    FindingDomain { project_id: u128, ip: String, port: i32 },
    InsertingDomain { id: u128, project_id: u128, ip: String, port: i32 },
    Finished(Result<String, BuildError>),
}

/// The mathematical content of a [`Stage`].
pub enum StageView {
    FindingProject,
    FindingBuild { project_id: u128 },
    Marking { project_id: u128 },
    Running { project_id: u128 },
    RecordingSuccess { project_id: u128, ip: Seq<char>, port: i32, log: Seq<char> },
    RecordingFailure { log: Seq<char> },
    RecordingTimeout,
    FindingDomain { project_id: u128, ip: Seq<char>, port: i32 },
    InsertingDomain { id: u128, project_id: u128, ip: Seq<char>, port: i32 },
    Finished(Result<Seq<char>, Failure>),
}

impl View for Stage {
    type V = StageView;

    open spec fn view(&self) -> StageView {
        match *self {
            Stage::FindingProject => StageView::FindingProject,
            Stage::FindingBuild { project_id } => StageView::FindingBuild { project_id },
            Stage::Marking { project_id } => StageView::Marking { project_id },
            Stage::Running { project_id } => StageView::Running { project_id },
            Stage::RecordingSuccess { project_id, ip, port, log } => StageView::RecordingSuccess {
                project_id,
                ip: ip@,
                port,
                log: log@,
            },
            Stage::RecordingFailure { log } => StageView::RecordingFailure { log: log@ },
            Stage::RecordingTimeout => StageView::RecordingTimeout,
            Stage::FindingDomain { project_id, ip, port } => StageView::FindingDomain {
                project_id,
                ip: ip@,
                port,
            },
            Stage::InsertingDomain { id, project_id, ip, port } => StageView::InsertingDomain {
                id,
                project_id,
                ip: ip@,
                port,
            },
            Stage::Finished(r) => StageView::Finished(outcome_of(r)),
        }
    }
}

/// What is to be done next for a build.
#[derive(Debug, PartialEq, Eq)]
pub enum BuildAction {
    /// Ask the store for the project of `owner` and `repo`.
    FindProject { owner: String, repo: String },
    /// Ask the store whether the build record exists.
    GetBuild { build_id: u128 },
    /// Write status and log of the build record.
    UpdateBuild { build_id: u128, status: BuildState, log: Option<String> },
    /// Run the builder, and abandon it after `timeout_secs` seconds.
    RunBuilder {
        owner: String,
        repo: String,
        container_name: String,
        container_src: String,
        timeout_secs: u64,
    },
    /// Ask the store for the domain of the project.
    GetDomain { project_id: u128 },
    /// Insert a domain for the project.
    InsertDomain { id: u128, project_id: u128, name: String, port: i32, ip: String },
    /// The build has ended with this result: give its slot back.
    Finish(Result<String, BuildError>),
    /// Nothing: the event answered nothing that was asked.
    Idle,
}

/// The mathematical content of a [`BuildAction`].
pub enum ActionView {
    FindProject { owner: Seq<char>, repo: Seq<char> },
    GetBuild { build_id: u128 },
    UpdateBuild { build_id: u128, status: BuildState, log: Option<Seq<char>> },
    RunBuilder {
        owner: Seq<char>,
        repo: Seq<char>,
        container_name: Seq<char>,
        container_src: Seq<char>,
        timeout_secs: u64,
    },
    GetDomain { project_id: u128 },
    InsertDomain { id: u128, project_id: u128, name: Seq<char>, port: i32, ip: Seq<char> },
    Finish(Result<Seq<char>, Failure>),
    Idle,
}

impl View for BuildAction {
    type V = ActionView;

    open spec fn view(&self) -> ActionView {
        match *self {
            BuildAction::FindProject { owner, repo } => ActionView::FindProject {
                owner: owner@,
                repo: repo@,
            },
            BuildAction::GetBuild { build_id } => ActionView::GetBuild { build_id },
            BuildAction::UpdateBuild { build_id, status, log } => ActionView::UpdateBuild {
                build_id,
                status,
                log: text_of(log),
            },
            BuildAction::RunBuilder {
                owner,
                repo,
                container_name,
                container_src,
                timeout_secs,
            } => ActionView::RunBuilder {
                owner: owner@,
                repo: repo@,
                container_name: container_name@,
                container_src: container_src@,
                timeout_secs,
            },
            BuildAction::GetDomain { project_id } => ActionView::GetDomain { project_id },
            BuildAction::InsertDomain { id, project_id, name, port, ip } => ActionView::InsertDomain {
                id,
                project_id,
                name: name@,
                port,
                ip: ip@,
            },
            BuildAction::Finish(r) => ActionView::Finish(outcome_of(r)),
            BuildAction::Idle => ActionView::Idle,
        }
    }
}

/// A failure that the store did not cause.
pub open spec fn failure(message: Seq<char>) -> Result<Seq<char>, Failure> {
    Err(Failure { message, inner_error: None })
}

/// A failure that the store's error `inner` caused.
pub open spec fn store_failure(message: Seq<char>, inner: Seq<char>) -> Result<Seq<char>, Failure> {
    Err(Failure { message, inner_error: Some(inner) })
}

/// The log of a build that was abandoned after `seconds` seconds.
pub open spec fn timeout_log(seconds: u64) -> Seq<char> {
    "Build timeout after "@ + decimal(seconds as nat) + " seconds"@
}

/// The seconds that the builder gets, for a configured time in milliseconds:
/// the whole seconds in it.
pub open spec fn timeout_seconds(timeout_ms: u64) -> u64 {
    timeout_ms / 1000
}

/// One build on its way: the job, the seconds that the builder gets, and the
/// stage.
pub struct RunView {
    pub job: Job,
    pub timeout_secs: u64,
    pub stage: StageView,
}

impl RunView {
    /// The run of `job` before anything was asked.
    pub open spec fn start(job: Job, timeout_secs: u64) -> RunView {
        RunView { job, timeout_secs, stage: StageView::FindingProject }
    }

    /// What the stage asks for.
    pub open spec fn request(self) -> ActionView {
        match self.stage {
            StageView::FindingProject => ActionView::FindProject {
                owner: self.job.owner,
                repo: self.job.repo,
            },
            StageView::FindingBuild { .. } => ActionView::GetBuild { build_id: self.job.build_id },
            StageView::Marking { .. } => ActionView::UpdateBuild {
                build_id: self.job.build_id,
                status: BuildState::BUILDING,
                log: None,
            },
            StageView::Running { .. } => ActionView::RunBuilder {
                owner: self.job.owner,
                repo: self.job.repo,
                container_name: self.job.container_name,
                container_src: self.job.container_src,
                timeout_secs: self.timeout_secs,
            },
            StageView::RecordingSuccess { log, .. } => ActionView::UpdateBuild {
                build_id: self.job.build_id,
                status: BuildState::SUCCESSFUL,
                log: Some(log),
            },
            StageView::RecordingFailure { log } => ActionView::UpdateBuild {
                build_id: self.job.build_id,
                status: BuildState::FAILED,
                log: Some(log),
            },
            StageView::RecordingTimeout => ActionView::UpdateBuild {
                build_id: self.job.build_id,
                status: BuildState::FAILED,
                log: Some(timeout_log(self.timeout_secs)),
            },
            StageView::FindingDomain { project_id, .. } => ActionView::GetDomain { project_id },
            StageView::InsertingDomain { id, project_id, ip, port } => ActionView::InsertDomain {
                id,
                project_id,
                name: self.job.container_name,
                port,
                ip,
            },
            StageView::Finished(result) => ActionView::Finish(result),
        }
    }

    /// The stage that `event` leads to, where it answers what the stage
    /// asked; `fresh_id` is the identifier that a new domain would get.
    pub open spec fn next(self, event: BuildEvent, fresh_id: u128) -> Option<StageView> {
        match (self.stage, event) {
            (StageView::FindingProject, BuildEvent::ProjectFound(project_id)) => Some(
                StageView::FindingBuild { project_id },
            ),
            (StageView::FindingProject, BuildEvent::ProjectMissing) => Some(
                StageView::Finished(
                    failure(
                        "Project not found with owner "@ + self.job.owner + " and repo "@
                            + self.job.repo,
                    ),
                ),
            ),
            (StageView::FindingProject, BuildEvent::StoreFailed(e)) => Some(
                StageView::Finished(
                    store_failure("Can't get project: Failed to query database"@, e@),
                ),
            ),
            (StageView::FindingBuild { project_id }, BuildEvent::RecordFound) => Some(
                StageView::Marking { project_id },
            ),
            (StageView::FindingBuild { .. }, BuildEvent::RecordMissing) => Some(
                StageView::Finished(
                    failure("Failed to find build with id: "@ + uuid_text(self.job.build_id)),
                ),
            ),
            (StageView::FindingBuild { .. }, BuildEvent::StoreFailed(e)) => Some(
                StageView::Finished(
                    store_failure("Can't create build: Failed to query database"@, e@),
                ),
            ),
            (StageView::Marking { project_id }, BuildEvent::Stored) => Some(
                StageView::Running { project_id },
            ),
            (StageView::Marking { .. }, BuildEvent::StoreFailed(e)) => Some(
                StageView::Finished(
                    store_failure(
                        "Failed to update build status: Failed to query database"@,
                        e@,
                    ),
                ),
            ),
            (StageView::Running { project_id }, BuildEvent::Built { ip, port, build_log }) => Some(
                StageView::RecordingSuccess { project_id, ip: ip@, port, log: build_log@ },
            ),
            (StageView::Running { .. }, BuildEvent::BuildFailed(message)) => Some(
                StageView::RecordingFailure { log: message@ },
            ),
            (StageView::Running { .. }, BuildEvent::BuildTimedOut) => Some(
                StageView::RecordingTimeout,
            ),
            (StageView::RecordingSuccess { project_id, ip, port, .. }, BuildEvent::Stored) => Some(
                StageView::FindingDomain { project_id, ip, port },
            ),
            (StageView::RecordingSuccess { .. }, BuildEvent::StoreFailed(e)) => Some(
                StageView::Finished(
                    store_failure(
                        "Failed to update build status: Failed to query database"@,
                        e@,
                    ),
                ),
            ),
            (StageView::RecordingFailure { .. }, BuildEvent::Stored) => Some(
                StageView::Finished(
                    failure(
                        "A build error occurred while building repository: "@ + self.job.repo,
                    ),
                ),
            ),
            (StageView::RecordingFailure { .. }, BuildEvent::StoreFailed(e)) => Some(
                StageView::Finished(
                    store_failure(
                        "Failed to update build status: Failed to query database: "@
                            + self.job.repo,
                        e@,
                    ),
                ),
            ),
            (StageView::RecordingTimeout, BuildEvent::Stored) => Some(
                StageView::Finished(failure(timeout_log(self.timeout_secs))),
            ),
            (StageView::RecordingTimeout, BuildEvent::StoreFailed(e)) => Some(
                StageView::Finished(store_failure(timeout_log(self.timeout_secs), e@)),
            ),
            (StageView::FindingDomain { .. }, BuildEvent::DomainFound(name)) => Some(
                StageView::Finished(Ok(name@)),
            ),
            (StageView::FindingDomain { project_id, ip, port }, BuildEvent::DomainMissing) => Some(
                StageView::InsertingDomain { id: fresh_id, project_id, ip, port },
            ),
            (StageView::FindingDomain { .. }, BuildEvent::StoreFailed(e)) => Some(
                StageView::Finished(
                    store_failure("Can't get subdomain: Failed to query database"@, e@),
                ),
            ),
            (StageView::InsertingDomain { .. }, BuildEvent::Stored) => Some(
                StageView::Finished(Ok(self.job.container_name)),
            ),
            (StageView::InsertingDomain { .. }, BuildEvent::StoreFailed(e)) => Some(
                StageView::Finished(
                    store_failure("Can't insert domain: Failed to query database"@, e@),
                ),
            ),
            _ => None,
        }
    }

    /// The run after `event`, and what is to be done then. An event that
    /// answers nothing that was asked changes nothing and asks for nothing.
    pub open spec fn step(self, event: BuildEvent, fresh_id: u128) -> (RunView, ActionView) {
        match self.next(event, fresh_id) {
            Some(stage) => {
                let run = RunView { stage, ..self };
                (run, run.request())
            },
            None => (self, ActionView::Idle),
        }
    }
}

impl BuildError {
    /// A failure with this message that the store did not cause.
    pub fn new(message: String) -> (e: BuildError)
        ensures
            Err::<Seq<char>, Failure>(e@) == failure(message@),
    {
        BuildError { message, inner_error: None }
    }

    /// A failure with this message that the store's error `inner` caused.
    pub fn from_store(message: &str, inner: String) -> (e: BuildError)
        ensures
            Err::<Seq<char>, Failure>(e@) == store_failure(message@, inner@),
    {
        BuildError { message: message.to_owned(), inner_error: Some(inner) }
    }

    /// The failure of a build whose record is not in the store; `id_text` is
    /// the build's identifier as text.
    pub fn record_missing(id_text: &str) -> (e: BuildError)
        ensures
            Err::<Seq<char>, Failure>(e@) == failure("Failed to find build with id: "@ + id_text@),
    {
        BuildError::new(join("Failed to find build with id: ", id_text))
    }

    /// A copy of this failure.
    pub fn duplicate(&self) -> (e: BuildError)
        ensures
            e@ == self@,
    {
        BuildError {
            message: self.message.clone(),
            inner_error: match &self.inner_error {
                Some(inner) => Some(inner.clone()),
                None => None,
            },
        }
    }
}

/// The whole seconds in `timeout_ms` milliseconds.
pub fn build_timeout(timeout_ms: u64) -> (seconds: u64)
    ensures
        seconds == timeout_seconds(timeout_ms),
{
    timeout_ms / 1000
}

/// The log of a build that was abandoned after `seconds` seconds.
pub fn timeout_message(seconds: u64) -> (log: String)
    ensures
        log@ == timeout_log(seconds),
{
    let number = decimal_string(seconds as u128);
    let head = join("Build timeout after ", number.as_str());
    join(head.as_str(), " seconds")
}

/// One build on its way.
#[derive(Debug, PartialEq, Eq)]
pub struct BuildRun {
    pub item: BuildItem,
    pub timeout_secs: u64,
    pub stage: Stage,
}

impl View for BuildRun {
    type V = RunView;

    open spec fn view(&self) -> RunView {
        RunView { job: self.item@, timeout_secs: self.timeout_secs, stage: self.stage@ }
    }
}

/// What `stage` asks for in the build of `item`.
fn request(item: &BuildItem, timeout_secs: u64, stage: &Stage) -> (action: BuildAction)
    ensures
        action@ == (RunView { job: item@, timeout_secs, stage: stage@ }).request(),
{
    match stage {
        Stage::FindingProject => BuildAction::FindProject {
            owner: item.owner.clone(),
            repo: item.repo.clone(),
        },
        Stage::FindingBuild { .. } => BuildAction::GetBuild { build_id: item.build_id },
        Stage::Marking { .. } => BuildAction::UpdateBuild {
            build_id: item.build_id,
            status: BuildState::BUILDING,
            log: None,
        },
        Stage::Running { .. } => BuildAction::RunBuilder {
            owner: item.owner.clone(),
            repo: item.repo.clone(),
            container_name: item.container_name.clone(),
            container_src: item.container_src.clone(),
            timeout_secs,
        },
        Stage::RecordingSuccess { log, .. } => BuildAction::UpdateBuild {
            build_id: item.build_id,
            status: BuildState::SUCCESSFUL,
            log: Some(log.clone()),
        },
        Stage::RecordingFailure { log } => BuildAction::UpdateBuild {
            build_id: item.build_id,
            status: BuildState::FAILED,
            log: Some(log.clone()),
        },
        Stage::RecordingTimeout => BuildAction::UpdateBuild {
            build_id: item.build_id,
            status: BuildState::FAILED,
            log: Some(timeout_message(timeout_secs)),
        },
        Stage::FindingDomain { project_id, .. } => BuildAction::GetDomain {
            project_id: *project_id,
        },
        Stage::InsertingDomain { id, project_id, ip, port } => BuildAction::InsertDomain {
            id: *id,
            project_id: *project_id,
            name: item.container_name.clone(),
            port: *port,
            ip: ip.clone(),
        },
        Stage::Finished(result) => BuildAction::Finish(
            match result {
                Ok(subdomain) => Ok(subdomain.clone()),
                Err(e) => Err(e.duplicate()),
            },
        ),
    }
}

/// A stage that ends the build with a failure that the store did not cause.
fn failed(message: String) -> (stage: Stage)
    ensures
        stage@ == StageView::Finished(failure(message@)),
{
    Stage::Finished(Err(BuildError::new(message)))
}

/// A stage that ends the build with a failure that the store caused.
fn store_failed(message: &str, inner: String) -> (stage: Stage)
    ensures
        stage@ == StageView::Finished(store_failure(message@, inner@)),
{
    Stage::Finished(Err(BuildError::from_store(message, inner)))
}

/// Starts the build of `item`: the project is to be looked up first. The
/// builder will get the whole seconds of `timeout_ms` milliseconds.
pub fn trigger_build(item: BuildItem, timeout_ms: u64) -> (started: (BuildRun, BuildAction))
    ensures
        started.0@ == RunView::start(item@, timeout_seconds(timeout_ms)),
        started.1@ == started.0@.request(),
{
    let timeout_secs = build_timeout(timeout_ms);
    let action = request(&item, timeout_secs, &Stage::FindingProject);
    (BuildRun { item, timeout_secs, stage: Stage::FindingProject }, action)
}

impl BuildRun {
    /// Whether the build has ended.
    pub fn is_finished(&self) -> (b: bool)
        ensures
            b == (self@.stage is Finished),
    {
        match &self.stage {
            Stage::Finished(_) => true,
            _ => false,
        }
    }

    /// Takes an answer of the store or of the builder, where a new domain
    /// would get the identifier `fresh_id`, and names what is to be done
    /// next.
    pub fn step_with_id(self, event: BuildEvent, fresh_id: u128) -> (after: (BuildRun, BuildAction))
        ensures
            (after.0@, after.1@) == self@.step(event, fresh_id),
    {
        let BuildRun { item, timeout_secs, stage } = self;
        let ghost before = RunView { job: item@, timeout_secs, stage: stage@ };
        let next: Result<Stage, Stage> = match (stage, event) {
            (Stage::FindingProject, BuildEvent::ProjectFound(project_id)) => Ok(
                Stage::FindingBuild { project_id },
            ),
            (Stage::FindingProject, BuildEvent::ProjectMissing) => {
                let head = join("Project not found with owner ", item.owner.as_str());
                let middle = join(head.as_str(), " and repo ");
                Ok(failed(join(middle.as_str(), item.repo.as_str())))
            },
            (Stage::FindingProject, BuildEvent::StoreFailed(e)) => Ok(
                store_failed("Can't get project: Failed to query database", e),
            ),
            (Stage::FindingBuild { project_id }, BuildEvent::RecordFound) => Ok(
                Stage::Marking { project_id },
            ),
            (Stage::FindingBuild { .. }, BuildEvent::RecordMissing) => {
                let id_text = build_id_text(item.build_id);
                Ok(Stage::Finished(Err(BuildError::record_missing(id_text.as_str()))))
            },
            (Stage::FindingBuild { .. }, BuildEvent::StoreFailed(e)) => Ok(
                store_failed("Can't create build: Failed to query database", e),
            ),
            (Stage::Marking { project_id }, BuildEvent::Stored) => Ok(
                Stage::Running { project_id },
            ),
            (Stage::Marking { .. }, BuildEvent::StoreFailed(e)) => Ok(
                store_failed("Failed to update build status: Failed to query database", e),
            ),
            (Stage::Running { project_id }, BuildEvent::Built { ip, port, build_log }) => Ok(
                Stage::RecordingSuccess { project_id, ip, port, log: build_log },
            ),
            (Stage::Running { .. }, BuildEvent::BuildFailed(message)) => Ok(
                Stage::RecordingFailure { log: message },
            ),
            (Stage::Running { .. }, BuildEvent::BuildTimedOut) => Ok(Stage::RecordingTimeout),
            (Stage::RecordingSuccess { project_id, ip, port, .. }, BuildEvent::Stored) => Ok(
                Stage::FindingDomain { project_id, ip, port },
            ),
            (Stage::RecordingSuccess { .. }, BuildEvent::StoreFailed(e)) => Ok(
                store_failed("Failed to update build status: Failed to query database", e),
            ),
            (Stage::RecordingFailure { .. }, BuildEvent::Stored) => Ok(
                failed(
                    join(
                        "A build error occurred while building repository: ",
                        item.repo.as_str(),
                    ),
                ),
            ),
            (Stage::RecordingFailure { .. }, BuildEvent::StoreFailed(e)) => {
                let message = join(
                    "Failed to update build status: Failed to query database: ",
                    item.repo.as_str(),
                );
                Ok(store_failed(message.as_str(), e))
            },
            (Stage::RecordingTimeout, BuildEvent::Stored) => Ok(
                failed(timeout_message(timeout_secs)),
            ),
            (Stage::RecordingTimeout, BuildEvent::StoreFailed(e)) => {
                let message = timeout_message(timeout_secs);
                Ok(store_failed(message.as_str(), e))
            },
            (Stage::FindingDomain { .. }, BuildEvent::DomainFound(name)) => Ok(
                Stage::Finished(Ok(name)),
            ),
            (Stage::FindingDomain { project_id, ip, port }, BuildEvent::DomainMissing) => Ok(
                Stage::InsertingDomain { id: fresh_id, project_id, ip, port },
            ),
            (Stage::FindingDomain { .. }, BuildEvent::StoreFailed(e)) => Ok(
                store_failed("Can't get subdomain: Failed to query database", e),
            ),
            (Stage::InsertingDomain { .. }, BuildEvent::Stored) => Ok(
                Stage::Finished(Ok(item.container_name.clone())),
            ),
            (Stage::InsertingDomain { .. }, BuildEvent::StoreFailed(e)) => Ok(
                store_failed("Can't insert domain: Failed to query database", e),
            ),
            (stage, _) => Err(stage),
        };
        match next {
            Ok(stage) => {
                assert(before.next(event, fresh_id) == Some(stage@));
                let action = request(&item, timeout_secs, &stage);
                (BuildRun { item, timeout_secs, stage }, action)
            },
            Err(stage) => {
                assert(before.next(event, fresh_id) is None);
                assert(stage@ == before.stage);
                (BuildRun { item, timeout_secs, stage }, BuildAction::Idle)
            },
        }
    }

    /// Takes an answer of the store or of the builder and names what is to
    /// be done next. Where a domain is to be inserted it gets a fresh
    /// identifier.
    pub fn step(self, event: BuildEvent) -> (after: (BuildRun, BuildAction))
        ensures
            exists|fresh_id: u128| (after.0@, after.1@) == self@.step(event, fresh_id),
    {
        self.step_with_id(event, new_build_id())
    }
}

impl RunView {
    /// The run after the answers `events`, each with the identifier that a
    /// new domain would get at that moment.
    pub open spec fn after(self, events: Seq<(BuildEvent, u128)>) -> RunView
        decreases events.len(),
    {
        if events.len() == 0 {
            self
        } else {
            self.after(events.drop_last()).step(events.last().0, events.last().1).0
        }
    }

    /// What the last of `events` asks for.
    pub open spec fn last_action(self, events: Seq<(BuildEvent, u128)>) -> ActionView
        recommends
            events.len() > 0,
    {
        self.after(events.drop_last()).step(events.last().0, events.last().1).1
    }

    /// The statuses that are written to the build record in answer to
    /// `events`, in the order of writing.
    pub open spec fn writes(self, events: Seq<(BuildEvent, u128)>) -> Seq<BuildState>
        decreases events.len(),
    {
        if events.len() == 0 {
            Seq::empty()
        } else {
            let earlier = self.writes(events.drop_last());
            match self.last_action(events) {
                ActionView::UpdateBuild { status, .. } => earlier.push(status),
                _ => earlier,
            }
        }
    }

    /// How often the answers `events` end the build.
    pub open spec fn finishes(self, events: Seq<(BuildEvent, u128)>) -> nat
        decreases events.len(),
    {
        if events.len() == 0 {
            0
        } else {
            let earlier = self.finishes(events.drop_last());
            match self.last_action(events) {
                ActionView::Finish(_) => earlier + 1,
                _ => earlier,
            }
        }
    }
}

/// Whether `statuses` is the beginning of a life of a build record:
/// `pending`, then `building`, then `successful` or `failed`.
pub open spec fn lawful(statuses: Seq<BuildState>) -> bool {
    ||| statuses.is_prefix_of(
        seq![BuildState::PENDING, BuildState::BUILDING, BuildState::SUCCESSFUL],
    )
    ||| statuses.is_prefix_of(seq![BuildState::PENDING, BuildState::BUILDING, BuildState::FAILED])
}

/// What has been written to the record of a build that stands at `stage`.
spec fn written_at(stage: StageView, written: Seq<BuildState>) -> bool {
    match stage {
        StageView::FindingProject | StageView::FindingBuild { .. } => written == Seq::<
            BuildState,
        >::empty(),
        StageView::Marking { .. } | StageView::Running { .. } => written == seq![
            BuildState::BUILDING,
        ],
        StageView::RecordingSuccess { .. }
        | StageView::FindingDomain { .. }
        | StageView::InsertingDomain { .. } => written == seq![
            BuildState::BUILDING,
            BuildState::SUCCESSFUL,
        ],
        StageView::RecordingFailure { .. } | StageView::RecordingTimeout => written == seq![
            BuildState::BUILDING,
            BuildState::FAILED,
        ],
        StageView::Finished(_) => lawful(seq![BuildState::PENDING] + written),
    }
}

proof fn lemma_written(job: Job, timeout_secs: u64, events: Seq<(BuildEvent, u128)>)
    ensures
        written_at(
            RunView::start(job, timeout_secs).after(events).stage,
            RunView::start(job, timeout_secs).writes(events),
        ),
        RunView::start(job, timeout_secs).after(events).job == job,
        RunView::start(job, timeout_secs).after(events).timeout_secs == timeout_secs,
        RunView::start(job, timeout_secs).finishes(events) == if RunView::start(
            job,
            timeout_secs,
        ).after(events).stage is Finished {
            1nat
        } else {
            0
        },
    decreases events.len(),
{
    let start = RunView::start(job, timeout_secs);
    let pending = seq![BuildState::PENDING];
    if events.len() > 0 {
        lemma_written(job, timeout_secs, events.drop_last());
        let before = start.after(events.drop_last());
        let earlier = start.writes(events.drop_last());
        let after = start.after(events);
        let now = start.writes(events);
        match before.next(events.last().0, events.last().1) {
            Some(stage) => {
                match stage {
                    StageView::Finished(_) => {
                        assert(now == earlier);
                        if earlier.len() == 0 {
                            assert(pending + earlier =~= pending);
                        } else if earlier.len() == 1 {
                            assert(pending + earlier =~= seq![
                                BuildState::PENDING,
                                BuildState::BUILDING,
                            ]);
                        } else {
                            assert(pending + earlier =~= seq![
                                BuildState::PENDING,
                                BuildState::BUILDING,
                                earlier[1],
                            ]);
                        }
                    },
                    StageView::Marking { .. } => {
                        assert(now =~= seq![BuildState::BUILDING]);
                    },
                    StageView::RecordingSuccess { .. } => {
                        assert(now =~= seq![BuildState::BUILDING, BuildState::SUCCESSFUL]);
                    },
                    StageView::RecordingFailure { .. } | StageView::RecordingTimeout => {
                        assert(now =~= seq![BuildState::BUILDING, BuildState::FAILED]);
                    },
                    _ => {},
                }
            },
            None => {},
        }
    } else {
        assert(pending + start.writes(events) =~= pending);
    }
}

/// Build state monotonicity. Whatever the store and the builder answer, and
/// in whatever order, the statuses written to the record of a build, after
/// the `pending` with which it was inserted, are the beginning of `pending`,
/// `building`, then `successful` or `failed`. And the build ends at most
/// once: exactly once if it has reached its end.
pub proof fn lemma_status_monotone(job: Job, timeout_secs: u64, events: Seq<(BuildEvent, u128)>)
    ensures
        lawful(seq![BuildState::PENDING] + RunView::start(job, timeout_secs).writes(events)),
        RunView::start(job, timeout_secs).finishes(events) <= 1,
        RunView::start(job, timeout_secs).finishes(events) == 1 <==> RunView::start(
            job,
            timeout_secs,
        ).after(events).stage is Finished,
{
    lemma_written(job, timeout_secs, events);
    let written = RunView::start(job, timeout_secs).writes(events);
    let pending = seq![BuildState::PENDING];
    if written.len() == 0 {
        assert(pending + written =~= pending);
    } else if written.len() == 1 {
        assert(pending + written =~= seq![BuildState::PENDING, BuildState::BUILDING]);
    } else {
        assert(pending + written =~= seq![BuildState::PENDING, BuildState::BUILDING, written[1]]);
    }
}

/// Timeout. A builder that was abandoned has its build recorded as `failed`,
/// with a log that begins `Build timeout after `.
pub proof fn lemma_timeout_is_recorded(run: RunView, fresh_id: u128)
    requires
        run.stage is Running,
    ensures
        run.step(BuildEvent::BuildTimedOut, fresh_id).1 == (ActionView::UpdateBuild {
            build_id: run.job.build_id,
            status: BuildState::FAILED,
            log: Some(timeout_log(run.timeout_secs)),
        }),
        "Build timeout after "@.is_prefix_of(timeout_log(run.timeout_secs)),
{
    let log = timeout_log(run.timeout_secs);
    let head = "Build timeout after "@;
    assert(log.subrange(0, head.len() as int) =~= head);
}

} // verus!
