use git_deploy::executor::{
    build_timeout, timeout_message, trigger_build, BuildAction, BuildError, BuildEvent, BuildRun,
    Stage,
};
use git_deploy::projects::api::get_project_status::BuildState;
use git_deploy::queue::{BuildItem, BuildQueueItem};

fn item() -> BuildItem {
    BuildItem::new(
        BuildQueueItem {
            container_name: "alice-proj".to_string(),
            container_src: "/srv/alice/proj.git/clone".to_string(),
            owner: "alice".to_string(),
            repo: "proj".to_string(),
        },
        42,
        1000,
    )
}

fn update(status: BuildState, log: Option<&str>) -> BuildAction {
    BuildAction::UpdateBuild { build_id: 42, status, log: log.map(|s| s.to_string()) }
}

fn failed(message: &str) -> BuildAction {
    BuildAction::Finish(Err(BuildError { message: message.to_string(), inner_error: None }))
}

fn store_failed(message: &str, inner: &str) -> BuildAction {
    BuildAction::Finish(Err(BuildError {
        message: message.to_string(),
        inner_error: Some(inner.to_string()),
    }))
}

fn built() -> BuildEvent {
    BuildEvent::Built { ip: "10.0.0.5".to_string(), port: 8080, build_log: "Step 1/3".to_string() }
}

fn drive(events: Vec<BuildEvent>) -> (BuildRun, Vec<BuildAction>) {
    let (mut run, first) = trigger_build(item(), 600_000);
    let mut actions = vec![first];
    for e in events {
        let (next, action) = run.step_with_id(e, 7);
        run = next;
        actions.push(action);
    }
    (run, actions)
}

fn statuses(actions: &[BuildAction]) -> Vec<BuildState> {
    actions
        .iter()
        .filter_map(|a| match a {
            BuildAction::UpdateBuild { status, .. } => Some(*status),
            _ => None,
        })
        .collect()
}

fn up_to_running() -> Vec<BuildEvent> {
    vec![BuildEvent::ProjectFound(9), BuildEvent::RecordFound, BuildEvent::Stored]
}

#[test]
fn build_state_names_and_order() {
    assert_eq!(BuildState::PENDING.name(), "pending");
    assert_eq!(BuildState::BUILDING.name(), "building");
    assert_eq!(BuildState::SUCCESSFUL.name(), "successful");
    assert_eq!(BuildState::FAILED.name(), "failed");
    let all = [BuildState::PENDING, BuildState::BUILDING, BuildState::SUCCESSFUL, BuildState::FAILED];
    for a in all {
        for b in all {
            let expected = matches!(
                (a, b),
                (BuildState::PENDING, BuildState::BUILDING)
                    | (BuildState::BUILDING, BuildState::SUCCESSFUL)
                    | (BuildState::BUILDING, BuildState::FAILED)
            );
            assert_eq!(a.can_become(&b), expected);
        }
    }
}

#[test]
fn timeout_is_given_in_whole_seconds() {
    assert_eq!(build_timeout(600_000), 600);
    assert_eq!(build_timeout(1999), 1);
    assert_eq!(build_timeout(999), 0);
    assert_eq!(build_timeout(0), 0);
    assert_eq!(timeout_message(600), "Build timeout after 600 seconds");
    assert_eq!(timeout_message(0), "Build timeout after 0 seconds");
}

#[test]
fn build_error_constructors() {
    assert_eq!(
        BuildError::new("m".to_string()),
        BuildError { message: "m".to_string(), inner_error: None }
    );
    assert_eq!(
        BuildError::from_store("m", "db down".to_string()),
        BuildError { message: "m".to_string(), inner_error: Some("db down".to_string()) }
    );
    assert_eq!(
        BuildError::record_missing("abc"),
        BuildError { message: "Failed to find build with id: abc".to_string(), inner_error: None }
    );
    let e = BuildError::from_store("m", "x".to_string());
    assert_eq!(e.duplicate(), e);
}

#[test]
fn trigger_build_looks_up_the_project_first() {
    let (run, action) = trigger_build(item(), 600_500);
    assert_eq!(run.stage, Stage::FindingProject);
    assert_eq!(run.timeout_secs, 600);
    assert!(!run.is_finished());
    assert_eq!(
        action,
        BuildAction::FindProject { owner: "alice".to_string(), repo: "proj".to_string() }
    );
}

#[test]
fn successful_build_with_a_new_domain() {
    let mut events = up_to_running();
    events.extend([built(), BuildEvent::Stored, BuildEvent::DomainMissing, BuildEvent::Stored]);
    let (run, actions) = drive(events);
    assert!(run.is_finished());
    assert_eq!(
        actions,
        vec![
            BuildAction::FindProject { owner: "alice".to_string(), repo: "proj".to_string() },
            BuildAction::GetBuild { build_id: 42 },
            update(BuildState::BUILDING, None),
            BuildAction::RunBuilder {
                owner: "alice".to_string(),
                repo: "proj".to_string(),
                container_name: "alice-proj".to_string(),
                container_src: "/srv/alice/proj.git/clone".to_string(),
                timeout_secs: 600,
            },
            update(BuildState::SUCCESSFUL, Some("Step 1/3")),
            BuildAction::GetDomain { project_id: 9 },
            BuildAction::InsertDomain {
                id: 7,
                project_id: 9,
                name: "alice-proj".to_string(),
                port: 8080,
                ip: "10.0.0.5".to_string(),
            },
            BuildAction::Finish(Ok("alice-proj".to_string())),
        ]
    );
    assert_eq!(statuses(&actions), vec![BuildState::BUILDING, BuildState::SUCCESSFUL]);
}

#[test]
fn second_successful_build_reuses_the_domain() {
    let mut events = up_to_running();
    events.extend([built(), BuildEvent::Stored, BuildEvent::DomainFound("alice-proj".to_string())]);
    let (run, actions) = drive(events);
    assert!(run.is_finished());
    assert_eq!(actions.last(), Some(&BuildAction::Finish(Ok("alice-proj".to_string()))));
    assert!(!actions.iter().any(|a| matches!(a, BuildAction::InsertDomain { .. })));
}

#[test]
fn builder_error_is_recorded_as_failed() {
    let mut events = up_to_running();
    events.extend([BuildEvent::BuildFailed("no Dockerfile".to_string()), BuildEvent::Stored]);
    let (run, actions) = drive(events);
    assert!(run.is_finished());
    assert_eq!(actions[4], update(BuildState::FAILED, Some("no Dockerfile")));
    assert_eq!(
        actions[5],
        failed("A build error occurred while building repository: proj")
    );
    assert_eq!(statuses(&actions), vec![BuildState::BUILDING, BuildState::FAILED]);
}

#[test]
fn timeout_is_recorded_as_failed() {
    let mut events = up_to_running();
    events.extend([BuildEvent::BuildTimedOut, BuildEvent::Stored]);
    let (run, actions) = drive(events);
    assert!(run.is_finished());
    match &actions[4] {
        BuildAction::UpdateBuild { build_id, status, log } => {
            assert_eq!(*build_id, 42);
            assert_eq!(*status, BuildState::FAILED);
            let log = log.as_ref().expect("a log");
            assert!(log.starts_with("Build timeout after "));
            assert_eq!(log, "Build timeout after 600 seconds");
        }
        other => panic!("unexpected {:?}", other),
    }
    assert_eq!(actions[5], failed("Build timeout after 600 seconds"));
    let mut events = up_to_running();
    events.extend([BuildEvent::BuildTimedOut, BuildEvent::StoreFailed("down".to_string())]);
    let (_, actions) = drive(events);
    assert_eq!(actions[5], store_failed("Build timeout after 600 seconds", "down"));
}

#[test]
fn every_failure_of_the_store_ends_the_build() {
    let down = || BuildEvent::StoreFailed("db down".to_string());
    let cases: Vec<(Vec<BuildEvent>, &str)> = vec![
        (vec![], "Can't get project: Failed to query database"),
        (vec![BuildEvent::ProjectFound(9)], "Can't create build: Failed to query database"),
        (
            vec![BuildEvent::ProjectFound(9), BuildEvent::RecordFound],
            "Failed to update build status: Failed to query database",
        ),
        (
            vec![BuildEvent::ProjectFound(9), BuildEvent::RecordFound, BuildEvent::Stored, built()],
            "Failed to update build status: Failed to query database",
        ),
        (
            vec![
                BuildEvent::ProjectFound(9),
                BuildEvent::RecordFound,
                BuildEvent::Stored,
                BuildEvent::BuildFailed("x".to_string()),
            ],
            "Failed to update build status: Failed to query database: proj",
        ),
        (
            vec![
                BuildEvent::ProjectFound(9),
                BuildEvent::RecordFound,
                BuildEvent::Stored,
                built(),
                BuildEvent::Stored,
            ],
            "Can't get subdomain: Failed to query database",
        ),
        (
            vec![
                BuildEvent::ProjectFound(9),
                BuildEvent::RecordFound,
                BuildEvent::Stored,
                built(),
                BuildEvent::Stored,
                BuildEvent::DomainMissing,
            ],
            "Can't insert domain: Failed to query database",
        ),
    ];
    for (mut events, message) in cases {
        events.push(down());
        let (run, actions) = drive(events);
        assert!(run.is_finished());
        assert_eq!(actions.last(), Some(&store_failed(message, "db down")));
    }
}

#[test]
fn missing_project_and_missing_record() {
    let (run, actions) = drive(vec![BuildEvent::ProjectMissing]);
    assert!(run.is_finished());
    assert_eq!(actions[1], failed("Project not found with owner alice and repo proj"));
    let (run, actions) = drive(vec![BuildEvent::ProjectFound(9), BuildEvent::RecordMissing]);
    assert!(run.is_finished());
    assert_eq!(
        actions[2],
        failed("Failed to find build with id: 00000000-0000-0000-0000-00000000002a")
    );
    assert!(statuses(&actions).is_empty());
}

#[test]
fn events_that_answer_nothing_are_ignored() {
    let (run, actions) = drive(vec![BuildEvent::Stored, built(), BuildEvent::DomainMissing]);
    assert_eq!(run.stage, Stage::FindingProject);
    assert_eq!(actions[1..], [BuildAction::Idle, BuildAction::Idle, BuildAction::Idle]);
    let (run, actions) = drive(vec![BuildEvent::ProjectMissing, BuildEvent::ProjectFound(1)]);
    assert!(run.is_finished());
    assert_eq!(actions[2], BuildAction::Idle);
}

#[test]
fn build_state_monotonicity() {
    let pool = || {
        vec![
            BuildEvent::ProjectFound(9),
            BuildEvent::RecordFound,
            BuildEvent::Stored,
            built(),
            BuildEvent::BuildFailed("x".to_string()),
            BuildEvent::BuildTimedOut,
            BuildEvent::DomainMissing,
            BuildEvent::StoreFailed("e".to_string()),
        ]
    };
    let n = pool().len();
    let mut seed: u64 = 12345;
    for _ in 0..500 {
        let mut events = Vec::new();
        for _ in 0..12 {
            seed = seed.wrapping_mul(6364136223846793005).wrapping_add(1442695040888963407);
            events.push(pool()[(seed >> 33) as usize % n].clone());
        }
        let (_, actions) = drive(events);
        let written = statuses(&actions);
        let ok = written.is_empty()
            || written == [BuildState::BUILDING]
            || written == [BuildState::BUILDING, BuildState::SUCCESSFUL]
            || written == [BuildState::BUILDING, BuildState::FAILED];
        assert!(ok, "{:?}", written);
        let ends = actions.iter().filter(|a| matches!(a, BuildAction::Finish(_))).count();
        assert!(ends <= 1);
    }
}

#[test]
fn step_draws_a_fresh_domain_id() {
    let (mut run, _) = trigger_build(item(), 1000);
    for e in [
        BuildEvent::ProjectFound(9),
        BuildEvent::RecordFound,
        BuildEvent::Stored,
        built(),
        BuildEvent::Stored,
    ] {
        run = run.step(e).0;
    }
    let (_, action) = run.step(BuildEvent::DomainMissing);
    match action {
        BuildAction::InsertDomain { id, project_id, name, port, ip } => {
            assert!(id >> 80 > 0);
            assert_eq!(project_id, 9);
            assert_eq!(name, "alice-proj");
            assert_eq!(port, 8080);
            assert_eq!(ip, "10.0.0.5");
        }
        other => panic!("unexpected {:?}", other),
    }
}

#[test]
fn build_id_is_written_as_a_hyphenated_uuid() {
    let mut it = item();
    it.build_id = 0x0123456789abcdef0fedcba987654321;
    let (run, _) = trigger_build(it, 1000);
    let (run, _) = run.step_with_id(BuildEvent::ProjectFound(9), 7);
    let (_, action) = run.step_with_id(BuildEvent::RecordMissing, 7);
    assert_eq!(
        action,
        failed("Failed to find build with id: 01234567-89ab-cdef-0fed-cba987654321")
    );
    let mut it = item();
    it.build_id = u128::MAX;
    let (run, _) = trigger_build(it, 1000);
    let (run, _) = run.step_with_id(BuildEvent::ProjectFound(9), 7);
    let (_, action) = run.step_with_id(BuildEvent::RecordMissing, 7);
    assert_eq!(
        action,
        failed("Failed to find build with id: ffffffff-ffff-ffff-ffff-ffffffffffff")
    );
}
