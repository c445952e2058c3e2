use git_deploy::auth::{authorize, basic_auth, AuthStep, TokenLookup, TokenRow};
use git_deploy::executor::{trigger_build, BuildAction, BuildEvent};
use git_deploy::git::{
    get_info_refs, info_refs_advertisement, post_receive, receive_pack_finish, receive_pack_rpc,
    service_rpc_response, upload_pack_rpc, GitOutput, GitQuery, InfoRefsStep, RequestHeaders,
    RpcStep,
};
use git_deploy::http::Response;
use git_deploy::projects::api::get_project_status::BuildState;
use git_deploy::queue::{
    process_task_enqueue, process_task_poll, BuildItem, BuildQueue, BuildQueueItem, DropReason,
    EnqueueStep, ProjectLookup,
};
use git_deploy::sync::{sync, Oid, SyncAction, SyncEvent, SyncStage};

fn no_headers() -> RequestHeaders {
    RequestHeaders { authorization: None, content_encoding: None, git_protocol: None }
}

fn push(base: &str, owner: &str, repo: &str) -> (Response, Option<BuildQueueItem>) {
    let step = receive_pack_rpc(base, owner, repo, &no_headers(), b"00a0old new refs/heads/main\0 report-status0000PACK".to_vec());
    let command = match step {
        RpcStep::Run(command) => command,
        other => panic!("unexpected {:?}", other),
    };
    assert_eq!(command.args[0], "receive-pack");
    let response = service_rpc_response(
        "receive-pack",
        GitOutput::Exited { success: true, stdout: b"000eunpack ok\n0000".to_vec() },
    );
    let post = post_receive(base, owner, repo, &response).expect("a push that was taken");
    let (mut stage, mut action) = sync();
    let head = Oid { bytes: [0xab; 20] };
    loop {
        let event = match action {
            SyncAction::ResolveHead => SyncEvent::Head(Some(head)),
            SyncAction::RemoveDest | SyncAction::Clone | SyncAction::Checkout => {
                SyncEvent::Done(true)
            }
            SyncAction::DetachHead(oid) => {
                assert_eq!(oid, head);
                SyncEvent::Done(true)
            }
            SyncAction::Finish(_) | SyncAction::Idle => break,
        };
        let next = stage.step(event);
        stage = next.0;
        action = next.1;
    }
    assert_eq!(stage, SyncStage::Synced(head));
    receive_pack_finish(response, post, &stage)
}

fn enqueue(queue: &mut BuildQueue, message: BuildQueueItem, inserted: &mut Vec<u128>) -> bool {
    match process_task_enqueue(queue, &message, ProjectLookup::Found(77)) {
        EnqueueStep::Insert { build_id, project_id } => {
            assert_eq!(project_id, 77);
            inserted.push(build_id);
            queue.push(BuildItem::new(message, build_id, 1))
        }
        EnqueueStep::Drop(reason) => {
            assert_eq!(reason, DropReason::AlreadyWaiting);
            false
        }
    }
}

fn build(item: BuildItem, builder: BuildEvent, domain: BuildEvent) -> (Vec<BuildState>, Vec<BuildAction>) {
    let (mut run, mut action) = trigger_build(item, 600_000);
    let mut written = vec![BuildState::PENDING];
    let mut actions = Vec::new();
    loop {
        let event = match &action {
            BuildAction::FindProject { .. } => BuildEvent::ProjectFound(77),
            BuildAction::GetBuild { .. } => BuildEvent::RecordFound,
            BuildAction::UpdateBuild { status, .. } => {
                written.push(*status);
                BuildEvent::Stored
            }
            BuildAction::RunBuilder { .. } => builder.clone(),
            BuildAction::GetDomain { .. } => domain.clone(),
            BuildAction::InsertDomain { .. } => BuildEvent::Stored,
            BuildAction::Finish(_) | BuildAction::Idle => {
                actions.push(action);
                break;
            }
        };
        actions.push(action);
        let next = run.step(event);
        run = next.0;
        action = next.1;
    }
    (written, actions)
}

fn built() -> BuildEvent {
    BuildEvent::Built { ip: "172.17.0.2".to_string(), port: 3000, build_log: "ok".to_string() }
}

#[test]
fn clone_of_an_empty_repository() {
    let query = GitQuery { service: "git-upload-pack".to_string() };
    let step = get_info_refs("/tmp/srv", "alice", "proj.git", &query, &no_headers());
    let (service, command) = match step {
        InfoRefsStep::Smart { service, command } => (service, command),
        other => panic!("unexpected {:?}", other),
    };
    assert_eq!(command.dir.as_deref(), Some("/tmp/srv/alice/proj.git"));
    assert_eq!(command.args, vec!["upload-pack", "--stateless-rpc", "--advertise-refs", "."]);
    let no_refs = b"0000".to_vec();
    let r = info_refs_advertisement(&service, GitOutput::Exited { success: true, stdout: no_refs });
    assert_eq!(r.status, 200);
    assert_eq!(r.body, b"001e# service=git-upload-pack\n00000000".to_vec());
    let step = upload_pack_rpc("/tmp/srv", "alice", "proj.git", &no_headers(), b"0000".to_vec());
    match step {
        RpcStep::Respond(r) => {
            assert_eq!(r.status, 200);
            assert!(r.body.is_empty());
            assert_eq!(r.header_value("Content-Length"), Some("0"));
        }
        other => panic!("unexpected {:?}", other),
    }
}

#[test]
fn push_of_a_single_commit() {
    let (response, item) = push("/tmp/srv", "alice", "proj.git");
    assert_eq!(response.status, 200);
    assert_eq!(response.body, b"000eunpack ok\n0000".to_vec());
    let item = item.expect("a build to ask for");
    assert_eq!(item.container_src, "/tmp/srv/alice/proj.git/clone");
    assert_eq!(item.container_name, "alice-proj");
    let mut queue = BuildQueue::new(1);
    let mut inserted = Vec::new();
    assert!(enqueue(&mut queue, item, &mut inserted));
    assert_eq!(inserted.len(), 1);
    let poll = process_task_poll(&mut queue, 0, 1);
    let job = poll.dispatch.expect("a dispatch");
    assert_eq!(job.build_id, inserted[0]);
    let (written, actions) = build(job, built(), BuildEvent::DomainMissing);
    assert_eq!(
        written,
        vec![BuildState::PENDING, BuildState::BUILDING, BuildState::SUCCESSFUL]
    );
    assert_eq!(actions.last(), Some(&BuildAction::Finish(Ok("alice-proj".to_string()))));
    assert!(queue.release());
    assert_eq!(queue.available_slots(), 1);
}

#[test]
fn two_pushes_to_one_repository() {
    let (first, a) = push("/tmp/srv", "alice", "proj.git");
    let (second, b) = push("/tmp/srv", "alice", "proj.git");
    assert_eq!((first.status, second.status), (200, 200));
    let mut queue = BuildQueue::new(1);
    let mut inserted = Vec::new();
    assert!(enqueue(&mut queue, a.clone().unwrap(), &mut inserted));
    assert!(!enqueue(&mut queue, b.clone().unwrap(), &mut inserted));
    assert_eq!(inserted.len(), 1);
    assert_eq!(queue.queue_len(), 1);
    assert!(process_task_poll(&mut queue, 0, 1).dispatch.is_some());
    assert!(process_task_poll(&mut queue, 0, 2).dispatch.is_none());

    let mut queue = BuildQueue::new(2);
    let mut inserted = Vec::new();
    assert!(enqueue(&mut queue, a.unwrap(), &mut inserted));
    assert!(process_task_poll(&mut queue, 0, 1).dispatch.is_some());
    assert!(enqueue(&mut queue, b.unwrap(), &mut inserted));
    assert_eq!(inserted.len(), 2);
    assert!(process_task_poll(&mut queue, 0, 2).dispatch.is_some());
}

#[test]
fn push_with_a_bad_token() {
    let header = format!("Basic {}", data_encoding::BASE64.encode(b"alice:guess"));
    let wanted = match basic_auth(true, "alice", "proj.git", Some(&header)) {
        AuthStep::Lookup(wanted) => wanted,
        other => panic!("unexpected {:?}", other),
    };
    assert_eq!(wanted.owner, "alice");
    let store = TokenLookup::Rows(vec![TokenRow {
        project_name: "proj".to_string(),
        project_owner: "alice".to_string(),
        token: "secret".to_string(),
    }]);
    let rejected = authorize(&wanted, &store).expect("401");
    assert_eq!(rejected.status, 401);
    let queue = BuildQueue::new(1);
    assert_eq!(queue.queue_len(), 0);
}

#[test]
fn builder_that_always_fails() {
    let (response, item) = push("/tmp/srv", "alice", "proj.git");
    assert_eq!(response.status, 200);
    let mut queue = BuildQueue::new(2);
    let mut inserted = Vec::new();
    assert!(enqueue(&mut queue, item.unwrap(), &mut inserted));
    let job = process_task_poll(&mut queue, 0, 1).dispatch.expect("a dispatch");
    assert_eq!(queue.available_slots(), 1);
    let message = "image build failed";
    let (written, actions) =
        build(job, BuildEvent::BuildFailed(message.to_string()), BuildEvent::DomainMissing);
    assert_eq!(written, vec![BuildState::PENDING, BuildState::BUILDING, BuildState::FAILED]);
    let log = actions.iter().find_map(|a| match a {
        BuildAction::UpdateBuild { status: BuildState::FAILED, log, .. } => log.clone(),
        _ => None,
    });
    assert_eq!(log.as_deref(), Some(message));
    assert!(matches!(actions.last(), Some(BuildAction::Finish(Err(_)))));
    assert!(queue.release());
    assert_eq!(queue.available_slots(), 2);
}

#[test]
fn second_build_of_a_project_with_a_domain() {
    let (_, item) = push("/tmp/srv", "alice", "proj.git");
    let job = BuildItem::new(item.unwrap(), 5, 1);
    let (written, actions) = build(job, built(), BuildEvent::DomainFound("alice-proj".to_string()));
    assert_eq!(
        written,
        vec![BuildState::PENDING, BuildState::BUILDING, BuildState::SUCCESSFUL]
    );
    assert!(!actions.iter().any(|a| matches!(a, BuildAction::InsertDomain { .. })));
    assert_eq!(actions.last(), Some(&BuildAction::Finish(Ok("alice-proj".to_string()))));
}
