use git_deploy::git::{
    get_git_service, get_info_refs, info_refs_advertisement, info_refs_file, post_receive,
    receive_pack_finish, receive_pack_rpc, rpc_step_for, service_rpc, service_rpc_response,
    upload_pack_rpc, GitCommand, GitOutput, GitQuery, InfoRefsStep, PostReceive, RequestHeaders,
    RpcStep,
};
use git_deploy::http::{Header, Response};
use git_deploy::queue::BuildQueueItem;
use git_deploy::sync::{Oid, SyncError, SyncStage};
use std::io::Write;

fn header(name: &str, value: &str) -> Header {
    Header { name: name.to_string(), value: value.to_string() }
}

fn no_headers() -> RequestHeaders {
    RequestHeaders { authorization: None, content_encoding: None, git_protocol: None }
}

fn strings(items: &[&str]) -> Vec<String> {
    items.iter().map(|s| s.to_string()).collect()
}

fn gzip(data: &[u8]) -> Vec<u8> {
    let mut e = flate2::write::GzEncoder::new(Vec::new(), flate2::Compression::default());
    e.write_all(data).unwrap();
    e.finish().unwrap()
}

fn probe(rpc: &str) -> Response {
    Response {
        status: 200,
        headers: vec![
            header("Content-Type", &format!("application/x-git-{}-result", rpc)),
            header("Vary", "Accept-Encoding"),
            header("Content-Length", "0"),
        ],
        body: vec![],
    }
}

fn failure(rpc: &str) -> Response {
    Response {
        status: 500,
        headers: vec![header("Content-Type", &format!("application/x-git-{}-result", rpc))],
        body: vec![],
    }
}

#[test]
fn git_service_strips_the_prefix() {
    assert_eq!(get_git_service("git-upload-pack"), "upload-pack");
    assert_eq!(get_git_service("git-receive-pack"), "receive-pack");
    assert_eq!(get_git_service("git-"), "");
    assert_eq!(get_git_service("upload-pack"), "");
    assert_eq!(get_git_service(""), "");
    assert_eq!(get_git_service("git"), "");
}

#[test]
fn capability_probe_is_answered_without_git() {
    for rpc in ["upload-pack", "receive-pack"] {
        let step = service_rpc(rpc, "/b/o/r.git", &no_headers(), b"0000".to_vec());
        assert_eq!(step, RpcStep::Respond(probe(rpc)));
    }
    let step = upload_pack_rpc("/b", "o", "r", &no_headers(), b"0000".to_vec());
    assert_eq!(step, RpcStep::Respond(probe("upload-pack")));
    let step = receive_pack_rpc("/b", "o", "r", &no_headers(), b"0000".to_vec());
    assert_eq!(step, RpcStep::Respond(probe("receive-pack")));
}

#[test]
fn gzipped_probe_is_inflated_first() {
    let headers = RequestHeaders { content_encoding: Some("gzip".to_string()), ..no_headers() };
    let step = service_rpc("upload-pack", "/p", &headers, gzip(b"0000"));
    assert_eq!(step, RpcStep::Respond(probe("upload-pack")));
}

#[test]
fn gzipped_body_reaches_git_inflated() {
    let headers = RequestHeaders { content_encoding: Some("gzip".to_string()), ..no_headers() };
    let step = service_rpc("upload-pack", "/p", &headers, gzip(b"0032want abc\n0000"));
    assert_eq!(
        step,
        RpcStep::Run(GitCommand {
            dir: None,
            args: strings(&["upload-pack", "--stateless-rpc", "/p"]),
            env: vec![],
            stdin: b"0032want abc\n0000".to_vec(),
        })
    );
}

#[test]
fn broken_gzip_gives_500_with_the_content_type() {
    let headers = RequestHeaders { content_encoding: Some("gzip".to_string()), ..no_headers() };
    let step = service_rpc("receive-pack", "/p", &headers, b"0000".to_vec());
    assert_eq!(step, RpcStep::Respond(failure("receive-pack")));
    let mut cut = gzip(b"some longer body to compress");
    cut.truncate(cut.len() - 4);
    let step = service_rpc("receive-pack", "/p", &headers, cut);
    assert_eq!(step, RpcStep::Respond(failure("receive-pack")));
}

#[test]
fn other_encodings_are_taken_as_they_come() {
    let headers = RequestHeaders { content_encoding: Some("identity".to_string()), ..no_headers() };
    let body = gzip(b"0000");
    let step = service_rpc("upload-pack", "/p", &headers, body.clone());
    match step {
        RpcStep::Run(command) => assert_eq!(command.stdin, body),
        other => panic!("unexpected {:?}", other),
    }
}

#[test]
fn rpc_runs_git_with_the_body_on_stdin() {
    let step = upload_pack_rpc("/tmp/srv", "alice", "proj", &no_headers(), b"0009done\n".to_vec());
    assert_eq!(
        step,
        RpcStep::Run(GitCommand {
            dir: None,
            args: strings(&["upload-pack", "--stateless-rpc", "/tmp/srv/alice/proj.git"]),
            env: vec![],
            stdin: b"0009done\n".to_vec(),
        })
    );
    let step = receive_pack_rpc("/tmp/srv", "alice", "proj.git", &no_headers(), vec![]);
    assert_eq!(
        step,
        RpcStep::Run(GitCommand {
            dir: None,
            args: strings(&["receive-pack", "--stateless-rpc", "/tmp/srv/alice/proj.git"]),
            env: vec![],
            stdin: vec![],
        })
    );
}

#[test]
fn protocol_version_two_is_handed_on() {
    let headers = RequestHeaders { git_protocol: Some("version=2".to_string()), ..no_headers() };
    match service_rpc("upload-pack", "/p", &headers, b"x".to_vec()) {
        RpcStep::Run(command) => assert_eq!(
            command.env,
            vec![("GIT_PROTOCOL".to_string(), "version=2".to_string())]
        ),
        other => panic!("unexpected {:?}", other),
    }
    let headers = RequestHeaders { git_protocol: Some("version=1".to_string()), ..no_headers() };
    match service_rpc("upload-pack", "/p", &headers, b"x".to_vec()) {
        RpcStep::Run(command) => assert!(command.env.is_empty()),
        other => panic!("unexpected {:?}", other),
    }
}

#[test]
fn rpc_step_for_an_unreadable_body() {
    assert_eq!(rpc_step_for("upload-pack", "/p", &None, None), RpcStep::Respond(failure("upload-pack")));
    assert_eq!(
        rpc_step_for("upload-pack", "/p", &None, Some(b"0000".to_vec())),
        RpcStep::Respond(probe("upload-pack"))
    );
    assert!(matches!(
        rpc_step_for("upload-pack", "/p", &None, Some(b"00000".to_vec())),
        RpcStep::Run(_)
    ));
}

#[test]
fn rpc_response_carries_stdout_on_success() {
    let out = GitOutput::Exited { success: true, stdout: b"PACK".to_vec() };
    assert_eq!(
        service_rpc_response("upload-pack", out),
        Response {
            status: 200,
            headers: vec![header("Content-Type", "application/x-git-upload-pack-result")],
            body: b"PACK".to_vec(),
        }
    );
    let out = GitOutput::Exited { success: false, stdout: b"partial".to_vec() };
    assert_eq!(service_rpc_response("upload-pack", out), failure("upload-pack"));
    assert_eq!(service_rpc_response("receive-pack", GitOutput::Failed), failure("receive-pack"));
}

#[test]
fn smart_info_refs_advertises() {
    let query = GitQuery { service: "git-upload-pack".to_string() };
    let headers = RequestHeaders { git_protocol: Some("version=2".to_string()), ..no_headers() };
    let step = get_info_refs("/tmp/srv", "o", "r", &query, &headers);
    assert_eq!(
        step,
        InfoRefsStep::Smart {
            service: "upload-pack".to_string(),
            command: GitCommand {
                dir: Some("/tmp/srv/o/r.git".to_string()),
                args: strings(&["upload-pack", "--stateless-rpc", "--advertise-refs", "."]),
                env: vec![("GIT_PROTOCOL".to_string(), "version=2".to_string())],
                stdin: vec![],
            },
        }
    );
}

#[test]
fn dumb_info_refs_refreshes_and_serves_the_file() {
    for service in ["git-something", "upload-pack", ""] {
        let query = GitQuery { service: service.to_string() };
        let step = get_info_refs("/tmp/srv", "o", "r.git", &query, &no_headers());
        assert_eq!(
            step,
            InfoRefsStep::Dumb {
                command: GitCommand {
                    dir: Some("/tmp/srv/o/r.git".to_string()),
                    args: strings(&["update-server-info"]),
                    env: vec![],
                    stdin: vec![],
                },
                file: "/tmp/srv/o/r.git/info/refs".to_string(),
            }
        );
    }
}

#[test]
fn smart_http_framing() {
    let out = GitOutput::Exited { success: true, stdout: b"00000000".to_vec() };
    let r = info_refs_advertisement("upload-pack", out);
    assert_eq!(r.status, 200);
    assert_eq!(
        r.header_value("Content-Type"),
        Some("application/x-git-upload-pack-advertisement")
    );
    assert_eq!(r.header_value("Vary"), Some("Accept-Encoding"));
    assert_eq!(r.header_value("Accept-Encoding"), Some("Chunked"));
    assert_eq!(r.header_value("Pragma"), Some("no-cache"));
    assert_eq!(r.header_value("Expires"), Some("Fri, 01 Jan 1980 00:00:00 GMT"));
    assert_eq!(r.header_value("Cache-Control"), Some("no-cache, max-age=0, must-revalidate"));
    assert_eq!(r.headers.len(), 6);
    assert_eq!(r.body, b"001e# service=git-upload-pack\n000000000000".to_vec());
    assert!(r.body.starts_with(b"001e# service=git-upload-pack\n0000"));
    let out = GitOutput::Exited { success: false, stdout: b"x".to_vec() };
    let r = info_refs_advertisement("receive-pack", out);
    assert_eq!(r.body, b"001f# service=git-receive-pack\n0000x".to_vec());
    assert_eq!(
        info_refs_advertisement("upload-pack", GitOutput::Failed),
        Response { status: 500, headers: vec![], body: vec![] }
    );
}

#[test]
fn info_refs_file_responses() {
    let ran = GitOutput::Exited { success: true, stdout: vec![] };
    let r = info_refs_file(&ran, Some(b"abc\trefs/heads/main\n".to_vec()));
    assert_eq!(r.status, 200);
    assert_eq!(r.header_value("Content-Type"), Some("text/plain; charset=utf-8"));
    assert_eq!(r.header_value("Pragma"), Some("no-cache"));
    assert_eq!(r.body, b"abc\trefs/heads/main\n".to_vec());
    assert_eq!(info_refs_file(&ran, None), Response { status: 404, headers: vec![], body: vec![] });
    assert_eq!(
        info_refs_file(&GitOutput::Failed, Some(vec![1])),
        Response { status: 500, headers: vec![], body: vec![] }
    );
}

fn pushed() -> Response {
    service_rpc_response("receive-pack", GitOutput::Exited { success: true, stdout: b"000eunpack ok\n".to_vec() })
}

#[test]
fn post_receive_only_after_a_push_that_was_taken() {
    assert_eq!(post_receive("/b", "o", "r", &failure("receive-pack")), None);
    assert_eq!(post_receive("/b", "o", "r", &probe("receive-pack")), None);
    let post = post_receive("/tmp/srv", "alice", "my.proj.git", &pushed()).expect("a push");
    assert_eq!(
        post,
        PostReceive {
            bare_path: "/tmp/srv/alice/my.proj.git".to_string(),
            item: BuildQueueItem {
                container_name: "alice-my-proj".to_string(),
                container_src: "/tmp/srv/alice/my.proj.git/clone".to_string(),
                owner: "alice".to_string(),
                repo: "my.proj.git".to_string(),
            },
        }
    );
}

#[test]
fn receive_pack_finish_by_outcome_of_sync() {
    let oid = Oid { bytes: [7; 20] };
    let post = post_receive("/b", "o", "r", &pushed()).unwrap();
    let (response, item) = receive_pack_finish(pushed(), post.clone(), &SyncStage::Synced(oid));
    assert_eq!(response, pushed());
    assert_eq!(item, Some(post.item.clone()));
    for stage in [
        SyncStage::Failed(SyncError::Clone),
        SyncStage::Failed(SyncError::ResolveHead),
        SyncStage::Cloning(oid),
        SyncStage::Resolving,
    ] {
        let (response, item) = receive_pack_finish(pushed(), post.clone(), &stage);
        assert_eq!(response, Response { status: 500, headers: vec![], body: vec![] });
        assert_eq!(item, None);
    }
}
