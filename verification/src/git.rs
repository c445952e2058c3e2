//! The smart-HTTP endpoints of a repository: `info/refs`, `git-upload-pack`
//! and `git-receive-pack`.
//!
//! No function here runs `git` or touches the disk. Each endpoint decides
//! from the request either the response or the `git` command to run, and
//! from what the command gave back the response.
use vstd::prelude::*;
use vstd::string::StringExecFns;
use vstd::string::StringSliceAdditionalSpecFns;
use crate::codec::{gunzip, gzip_inflated};
use crate::executor::text_of;
use crate::http::{no_cache_headers, Response, ResponseView};
use crate::pktline::{flush_packet, packet, packet_flush, packet_write};
use crate::queue::{BuildQueueItem, Request};
use crate::repo::{
    bare_path,
    container_name,
    container_name_of,
    container_src,
    repo_path,
    working_copy_of,
};
use crate::sync::SyncStage;
use crate::text::{chars_of, join, same, starts_with, string_of};

verus! {

/// The query of a request for `info/refs`.
#[derive(Debug, Clone, PartialEq, Eq)]
pub struct GitQuery {
    pub service: String,
}

/// The headers of a request that the endpoints read.
#[derive(Debug, Clone, PartialEq, Eq)]
pub struct RequestHeaders {
    /// `Authorization`
    pub authorization: Option<String>,
    /// `Content-Encoding`
    pub content_encoding: Option<String>,
    /// `Git-Protocol`
    pub git_protocol: Option<String>,
}

/// A run of `git`: the directory to run it in, where one is set, the
/// arguments, the variables to add to the environment, and what to write to
/// its standard input.
#[derive(Debug, Clone, PartialEq, Eq)]
pub struct GitCommand {
    pub dir: Option<String>,
    pub args: Vec<String>,
    pub env: Vec<(String, String)>,
    pub stdin: Vec<u8>,
}

/// The mathematical content of a [`GitCommand`].
pub struct CommandView {
    pub dir: Option<Seq<char>>,
    pub args: Seq<Seq<char>>,
    pub env: Seq<(Seq<char>, Seq<char>)>,
    pub stdin: Seq<u8>,
}

impl View for GitCommand {
    type V = CommandView;

    open spec fn view(&self) -> CommandView {
        CommandView {
            dir: text_of(self.dir),
            args: Seq::new(self.args@.len(), |i: int| self.args@[i]@),
            env: Seq::new(self.env@.len(), |i: int| (self.env@[i].0@, self.env@[i].1@)),
            stdin: self.stdin@,
        }
    }
}

/// What a run of `git` gave back.
#[derive(Debug, Clone, PartialEq, Eq)]
pub enum GitOutput {
    /// The process could not be started, fed or waited for.
    Failed,
    /// The process ended, well or not, having written `stdout`.
    Exited { success: bool, stdout: Vec<u8> },
}

/// What an RPC endpoint decides on the request.
#[derive(Debug, Clone, PartialEq, Eq)]
pub enum RpcStep {
    /// The response, with no process run.
    Respond(Response),
    /// The command whose output makes the response.
    Run(GitCommand),
}

/// The mathematical content of an [`RpcStep`].
pub enum RpcStepView {
    Respond(ResponseView),
    Run(CommandView),
}

impl View for RpcStep {
    type V = RpcStepView;

    open spec fn view(&self) -> RpcStepView {
        match self {
            RpcStep::Respond(r) => RpcStepView::Respond(r@),
            RpcStep::Run(c) => RpcStepView::Run(c@),
        }
    }
}

/// The service that a query names: what follows `git-`, or nothing where the
/// query does not begin so.
pub open spec fn git_service(service: Seq<char>) -> Seq<char> {
    if "git-"@.is_prefix_of(service) {
        service.skip("git-"@.len() as int)
    } else {
        Seq::empty()
    }
}

/// Whether `service` is one of the two smart services.
pub open spec fn is_smart(service: Seq<char>) -> bool {
    service == "receive-pack"@ || service == "upload-pack"@
}

/// The variables that hand the protocol version on to `git`: `GIT_PROTOCOL`,
/// exactly if the request asked for version 2.
pub open spec fn protocol_env(git_protocol: Option<Seq<char>>) -> Seq<(Seq<char>, Seq<char>)> {
    if git_protocol == Some("version=2"@) {
        seq![("GIT_PROTOCOL"@, "version=2"@)]
    } else {
        Seq::empty()
    }
}

/// `git <rpc> --stateless-rpc <path>`, fed with `body`.
pub open spec fn rpc_command(
    rpc: Seq<char>,
    path: Seq<char>,
    git_protocol: Option<Seq<char>>,
    body: Seq<u8>,
) -> CommandView {
    CommandView {
        dir: None,
        args: seq![rpc, "--stateless-rpc"@, path],
        env: protocol_env(git_protocol),
        stdin: body,
    }
}

/// `git <service> --stateless-rpc --advertise-refs .`, run in the
/// repository.
pub open spec fn advertise_command(
    service: Seq<char>,
    path: Seq<char>,
    git_protocol: Option<Seq<char>>,
) -> CommandView {
    CommandView {
        dir: Some(path),
        args: seq![service, "--stateless-rpc"@, "--advertise-refs"@, "."@],
        env: protocol_env(git_protocol),
        stdin: Seq::empty(),
    }
}

/// `git update-server-info`, run in the repository.
pub open spec fn update_command(path: Seq<char>) -> CommandView {
    CommandView {
        dir: Some(path),
        args: seq!["update-server-info"@],
        env: Seq::empty(),
        stdin: Seq::empty(),
    }
}

/// The content type of the result of `rpc`.
pub open spec fn result_type(rpc: Seq<char>) -> Seq<char> {
    "application/x-git-"@ + rpc + "-result"@
}

/// The content type of the advertisement of `service`.
pub open spec fn advertisement_type(service: Seq<char>) -> Seq<char> {
    "application/x-git-"@ + service + "-advertisement"@
}

/// A response of an RPC endpoint: it always names the content type of the
/// result.
pub open spec fn rpc_response(rpc: Seq<char>, status: u16, body: Seq<u8>) -> ResponseView {
    ResponseView { status, headers: seq![("Content-Type"@, result_type(rpc))], body }
}

/// The answer to a client that only probes what the server can do.
pub open spec fn probe_response(rpc: Seq<char>) -> ResponseView {
    ResponseView {
        status: 200,
        headers: seq![
            ("Content-Type"@, result_type(rpc)),
            ("Vary"@, "Accept-Encoding"@),
            ("Content-Length"@, "0"@),
        ],
        body: Seq::empty(),
    }
}

/// The body of a request as it is read: inflated where the request says it
/// is gzip, as it came otherwise; nothing where it cannot be inflated.
pub open spec fn decoded_body(content_encoding: Option<Seq<char>>, body: Seq<u8>) -> Option<
    Seq<u8>,
> {
    if content_encoding == Some("gzip"@) {
        gzip_inflated(body)
    } else {
        Some(body)
    }
}

/// What an RPC endpoint decides, given the body as it is read. A body that
/// could not be read gives 500; a body that is just the flush packet is a
/// probe and is answered at once; any other body is handed to `git`.
pub open spec fn rpc_step(
    rpc: Seq<char>,
    path: Seq<char>,
    git_protocol: Option<Seq<char>>,
    body: Option<Seq<u8>>,
) -> RpcStepView {
    match body {
        None => RpcStepView::Respond(rpc_response(rpc, 500, Seq::empty())),
        Some(body) => if body == flush_packet() {
            RpcStepView::Respond(probe_response(rpc))
        } else {
            RpcStepView::Run(rpc_command(rpc, path, git_protocol, body))
        },
    }
}

/// The response of an RPC endpoint to what `git` gave back: its output where
/// it ended well, 500 without a body otherwise.
pub open spec fn rpc_result(rpc: Seq<char>, output: GitOutput) -> ResponseView {
    match output {
        GitOutput::Exited { success: true, stdout } => rpc_response(rpc, 200, stdout@),
        _ => rpc_response(rpc, 500, Seq::empty()),
    }
}

/// The service that a query names: what follows `git-`, or nothing where the
/// query does not begin so.
pub fn get_git_service(service: &str) -> (name: String)
    ensures
        name@ == git_service(service@),
{
    if starts_with(service, "git-") {
        let chars = chars_of(service);
        let prefix = chars_of("git-");
        string_of(chars.as_slice(), prefix.len(), chars.len())
    } else {
        String::new()
    }
}

/// The variables that hand the protocol version on to `git`.
fn protocol_variables(git_protocol: &Option<String>) -> (env: Vec<(String, String)>)
    ensures
        Seq::new(env@.len(), |i: int| (env@[i].0@, env@[i].1@)) == protocol_env(
            text_of(*git_protocol),
        ),
{
    let mut env: Vec<(String, String)> = Vec::new();
    let asked = match git_protocol {
        Some(value) => same(value.as_str(), "version=2"),
        None => false,
    };
    if asked {
        env.push(("GIT_PROTOCOL".to_owned(), "version=2".to_owned()));
    }
    assert(Seq::new(env@.len(), |i: int| (env@[i].0@, env@[i].1@)) =~= protocol_env(
        text_of(*git_protocol),
    ));
    env
}

fn content_type_of(head: &str, middle: &str, tail: &str) -> (value: String)
    ensures
        value@ == head@ + middle@ + tail@,
{
    let start = join(head, middle);
    join(start.as_str(), tail)
}

fn rpc_reply(rpc: &str, status: u16) -> (r: Response)
    ensures
        r@ == rpc_response(rpc@, status, Seq::empty()),
{
    let content_type = content_type_of("application/x-git-", rpc, "-result");
    let r = Response::new(status).header("Content-Type", content_type.as_str());
    assert(r@.headers =~= seq![("Content-Type"@, result_type(rpc@))]);
    r
}

/// Whether `body` is just the flush packet.
fn is_flush(body: &Vec<u8>) -> (b: bool)
    ensures
        b == (body@ == flush_packet()),
{
    if body.len() != 4 {
        return false;
    }
    let b = body[0] == 48 && body[1] == 48 && body[2] == 48 && body[3] == 48;
    if b {
        assert(body@ =~= flush_packet());
    } else {
        assert(flush_packet()[0] == 48 && flush_packet()[1] == 48 && flush_packet()[2] == 48
            && flush_packet()[3] == 48);
    }
    b
}

/// Decides on an RPC request whose body has been read.
pub fn rpc_step_for(rpc: &str, path: &str, git_protocol: &Option<String>, body: Option<Vec<u8>>) -> (step:
    RpcStep)
    ensures
        step@ == rpc_step(
            rpc@,
            path@,
            text_of(*git_protocol),
            match body {
                Some(body) => Some(body@),
                None => None,
            },
        ),
{
    let body = match body {
        Some(body) => body,
        None => { return RpcStep::Respond(rpc_reply(rpc, 500)); },
    };
    if is_flush(&body) {
        let r = rpc_reply(rpc, 200).header("Vary", "Accept-Encoding").header(
            "Content-Length",
            "0",
        );
        assert(r@.headers =~= probe_response(rpc@).headers);
        return RpcStep::Respond(r);
    }
    let mut args: Vec<String> = Vec::new();
    args.push(rpc.to_owned());
    args.push("--stateless-rpc".to_owned());
    args.push(path.to_owned());
    let command = GitCommand { dir: None, args, env: protocol_variables(git_protocol), stdin: body };
    assert(command@.args =~= seq![rpc@, "--stateless-rpc"@, path@]);
    RpcStep::Run(command)
}

/// Decides on a request to the RPC `rpc` of the repository at `path`. A body
/// that the request declares as gzip is inflated first.
pub fn service_rpc(rpc: &str, path: &str, headers: &RequestHeaders, body: Vec<u8>) -> (step:
    RpcStep)
    ensures
        step@ == rpc_step(
            rpc@,
            path@,
            text_of(headers.git_protocol),
            decoded_body(text_of(headers.content_encoding), body@),
        ),
{
    let gzip = match &headers.content_encoding {
        Some(encoding) => same(encoding.as_str(), "gzip"),
        None => false,
    };
    let body = if gzip {
        gunzip(body.as_slice())
    } else {
        Some(body)
    };
    rpc_step_for(rpc, path, &headers.git_protocol, body)
}

/// The response of the RPC `rpc` to what `git` gave back.
pub fn service_rpc_response(rpc: &str, output: GitOutput) -> (r: Response)
    ensures
        r@ == rpc_result(rpc@, output),
{
    match output {
        GitOutput::Exited { success: true, stdout } => rpc_reply(rpc, 200).with_body(stdout),
        _ => rpc_reply(rpc, 500),
    }
}

/// Decides on a request to `git-upload-pack` of a repository.
pub fn upload_pack_rpc(
    base: &str,
    owner: &str,
    repo: &str,
    headers: &RequestHeaders,
    body: Vec<u8>,
) -> (step: RpcStep)
    ensures
        step@ == rpc_step(
            "upload-pack"@,
            bare_path(base@, owner@, repo@),
            text_of(headers.git_protocol),
            decoded_body(text_of(headers.content_encoding), body@),
        ),
{
    let path = repo_path(base, owner, repo);
    service_rpc("upload-pack", path.as_str(), headers, body)
}

/// Decides on a request to `git-receive-pack` of a repository.
pub fn receive_pack_rpc(
    base: &str,
    owner: &str,
    repo: &str,
    headers: &RequestHeaders,
    body: Vec<u8>,
) -> (step: RpcStep)
    ensures
        step@ == rpc_step(
            "receive-pack"@,
            bare_path(base@, owner@, repo@),
            text_of(headers.git_protocol),
            decoded_body(text_of(headers.content_encoding), body@),
        ),
{
    let path = repo_path(base, owner, repo);
    service_rpc("receive-pack", path.as_str(), headers, body)
}

/// What the endpoint `info/refs` decides on the request.
#[derive(Debug, Clone, PartialEq, Eq)]
pub enum InfoRefsStep {
    /// The query names no smart service: `command` refreshes the
    /// repository's `info/refs`, and `file` is then served as it is.
    Dumb { command: GitCommand, file: String },
    /// The query names a smart service: the output of `command` is its
    /// advertisement.
    Smart { service: String, command: GitCommand },
}

/// The mathematical content of an [`InfoRefsStep`].
pub enum InfoRefsStepView {
    Dumb { command: CommandView, file: Seq<char> },
    Smart { service: Seq<char>, command: CommandView },
}

impl View for InfoRefsStep {
    type V = InfoRefsStepView;

    open spec fn view(&self) -> InfoRefsStepView {
        match self {
            InfoRefsStep::Dumb { command, file } => InfoRefsStepView::Dumb {
                command: command@,
                file: file@,
            },
            InfoRefsStep::Smart { service, command } => InfoRefsStepView::Smart {
                service: service@,
                command: command@,
            },
        }
    }
}

/// What `info/refs` decides for the repository at `path` and the service
/// named in the query.
pub open spec fn info_refs_step(
    path: Seq<char>,
    query: Seq<char>,
    git_protocol: Option<Seq<char>>,
) -> InfoRefsStepView {
    let service = git_service(query);
    if is_smart(service) {
        InfoRefsStepView::Smart {
            service,
            command: advertise_command(service, path, git_protocol),
        }
    } else {
        InfoRefsStepView::Dumb { command: update_command(path), file: path + "/info/refs"@ }
    }
}

/// The first line of an advertisement.
pub open spec fn service_line(service: Seq<char>) -> Seq<char> {
    "# service=git-"@ + service + "\n"@
}

/// The advertisement of `service`: its name as a packet, a flush packet,
/// then what `git` wrote; 500 with nothing in it where `git` could not be
/// run.
pub open spec fn advertisement(service: Seq<char>, output: GitOutput) -> ResponseView {
    match output {
        GitOutput::Failed => ResponseView {
            status: 500,
            headers: Seq::empty(),
            body: Seq::empty(),
        },
        GitOutput::Exited { stdout, .. } => ResponseView {
            status: 200,
            headers: no_cache_headers() + seq![
                ("Content-Type"@, advertisement_type(service)),
                ("Vary"@, "Accept-Encoding"@),
                ("Accept-Encoding"@, "Chunked"@),
            ],
            body: packet(vstd::utf8::encode_utf8(service_line(service))) + flush_packet()
                + stdout@,
        },
    }
}

/// The response that serves the file `info/refs`: 500 where the file could
/// not be refreshed, 404 where it is not there, and else its content, never
/// to be cached.
pub open spec fn refs_file(refreshed: GitOutput, contents: Option<Vec<u8>>) -> ResponseView {
    match (refreshed, contents) {
        (GitOutput::Failed, _) => ResponseView {
            status: 500,
            headers: Seq::empty(),
            body: Seq::empty(),
        },
        (_, None) => ResponseView { status: 404, headers: Seq::empty(), body: Seq::empty() },
        (_, Some(body)) => ResponseView {
            status: 200,
            headers: no_cache_headers().push(("Content-Type"@, "text/plain; charset=utf-8"@)),
            body: body@,
        },
    }
}

/// Decides on a request for `info/refs` of a repository.
pub fn get_info_refs(
    base: &str,
    owner: &str,
    repo: &str,
    query: &GitQuery,
    headers: &RequestHeaders,
) -> (step: InfoRefsStep)
    ensures
        step@ == info_refs_step(
            bare_path(base@, owner@, repo@),
            query.service@,
            text_of(headers.git_protocol),
        ),
{
    let service = get_git_service(query.service.as_str());
    let path = repo_path(base, owner, repo);
    let smart = same(service.as_str(), "receive-pack") || same(service.as_str(), "upload-pack");
    if !smart {
        let mut args: Vec<String> = Vec::new();
        args.push("update-server-info".to_owned());
        let file = join(path.as_str(), "/info/refs");
        let command = GitCommand { dir: Some(path), args, env: Vec::new(), stdin: Vec::new() };
        assert(command@.args =~= seq!["update-server-info"@]);
        assert(command@.env =~= Seq::empty());
        return InfoRefsStep::Dumb { command, file };
    }
    let mut args: Vec<String> = Vec::new();
    args.push(service.clone());
    args.push("--stateless-rpc".to_owned());
    args.push("--advertise-refs".to_owned());
    args.push(".".to_owned());
    let command = GitCommand {
        dir: Some(path),
        args,
        env: protocol_variables(&headers.git_protocol),
        stdin: Vec::new(),
    };
    assert(command@.args =~= seq![service@, "--stateless-rpc"@, "--advertise-refs"@, "."@]);
    InfoRefsStep::Smart { service, command }
}

/// The advertisement of `service` from what `git` gave back.
pub fn info_refs_advertisement(service: &str, output: GitOutput) -> (r: Response)
    ensures
        r@ == advertisement(service@, output),
{
    match output {
        GitOutput::Failed => Response::new(500),
        GitOutput::Exited { stdout, .. } => {
            let line = content_type_of("# service=git-", service, "\n");
            let mut body = packet_write(line.as_str());
            let mut flush = packet_flush();
            let mut rest = stdout;
            body.append(&mut flush);
            body.append(&mut rest);
            let content_type = content_type_of("application/x-git-", service, "-advertisement");
            let r = Response::ok().no_cache().header("Content-Type", content_type.as_str()).header(
                "Vary",
                "Accept-Encoding",
            ).header("Accept-Encoding", "Chunked").with_body(body);
            assert(r@.headers =~= advertisement(service@, output).headers);
            r
        },
    }
}

/// Serves the file `info/refs` after it was refreshed.
pub fn info_refs_file(refreshed: &GitOutput, contents: Option<Vec<u8>>) -> (r: Response)
    ensures
        r@ == refs_file(*refreshed, contents),
{
    match refreshed {
        GitOutput::Failed => Response::new(500),
        _ => match contents {
            None => Response::new(404),
            Some(body) => {
                let r = Response::ok().no_cache().header(
                    "Content-Type",
                    "text/plain; charset=utf-8",
                ).with_body(body);
                assert(r@.headers =~= no_cache_headers().push(
                    ("Content-Type"@, "text/plain; charset=utf-8"@),
                ));
                r
            },
        },
    }
}

/// What is to be done after `git-receive-pack` has taken a push: the
/// repository whose working copy is to be made anew, and the build to ask
/// for once that is done.
#[derive(Debug, Clone, PartialEq, Eq)]
pub struct PostReceive {
    /// The bare repository. Its working copy is `item.container_src`.
    pub bare_path: String,
    pub item: BuildQueueItem,
}

/// Whether a response of `git-receive-pack` reports a push that was taken:
/// its status is 200 and it does not declare an empty body, as the answer to
/// a probe does.
pub open spec fn push_taken(response: ResponseView) -> bool {
    response.status == 200 && crate::http::first_value(response.headers, "Content-Length"@)
        != Some("0"@)
}

/// The build to ask for after a push to the repository of `owner` and
/// `repo`.
pub open spec fn build_request(base: Seq<char>, owner: Seq<char>, repo: Seq<char>) -> Request {
    Request {
        container_name: container_name_of(owner, repo),
        container_src: working_copy_of(bare_path(base, owner, repo)),
        owner,
        repo,
    }
}

/// Decides what follows the response of `git-receive-pack`: nothing, where
/// no push was taken, and else the synchronisation of the working copy and
/// a build.
pub fn post_receive(base: &str, owner: &str, repo: &str, response: &Response) -> (post: Option<
    PostReceive,
>)
    ensures
        match post {
            Some(post) => {
                &&& push_taken(response@)
                &&& post.bare_path@ == bare_path(base@, owner@, repo@)
                &&& post.item@ == build_request(base@, owner@, repo@)
            },
            None => !push_taken(response@),
        },
{
    if response.status != 200 {
        return None;
    }
    let probe = match response.header_value("Content-Length") {
        Some(value) => same(value, "0"),
        None => false,
    };
    if probe {
        return None;
    }
    let path = repo_path(base, owner, repo);
    let item = BuildQueueItem {
        container_name: container_name(owner, repo),
        container_src: container_src(path.as_str()),
        owner: owner.to_owned(),
        repo: repo.to_owned(),
    };
    Some(PostReceive { bare_path: path, item })
}

/// The response to a push and the build to ask for, given where the
/// synchronisation of the working copy ended. Where it ended well the
/// response of `git-receive-pack` goes out as it is and the build is asked
/// for. Otherwise the response is 500 with nothing in it, and no build is
/// asked for.
pub fn receive_pack_finish(response: Response, post: PostReceive, outcome: &SyncStage) -> (done: (
    Response,
    Option<BuildQueueItem>,
))
    ensures
        done.0@ == if *outcome is Synced {
            response@
        } else {
            ResponseView { status: 500, headers: Seq::empty(), body: Seq::empty() }
        },
        match done.1 {
            Some(item) => *outcome is Synced && item@ == post.item@,
            None => !(*outcome is Synced),
        },
{
    match outcome {
        SyncStage::Synced(_) => (response, Some(post.item)),
        _ => (Response::new(500), None),
    }
}

/// The probe shortcut. A body that is just the flush packet, to whichever
/// RPC and whatever the headers, is answered at once with status 200, an
/// empty body and `Content-Length: 0`: no command is run.
pub proof fn lemma_probe_is_answered_at_once(
    rpc: Seq<char>,
    path: Seq<char>,
    git_protocol: Option<Seq<char>>,
)
    ensures
        rpc_step(rpc, path, git_protocol, Some(flush_packet())) == RpcStepView::Respond(
            probe_response(rpc),
        ),
        decoded_body(None, flush_packet()) == Some(flush_packet()),
        probe_response(rpc).status == 200,
        probe_response(rpc).body.len() == 0,
        probe_response(rpc).headers.contains(("Content-Length"@, "0"@)),
{
    assert(probe_response(rpc).headers[2] == ("Content-Length"@, "0"@));
}

/// The framing of an advertisement. Whenever `git` could be run, the
/// response has status 200 and the content type of the service's
/// advertisement, and its body begins with the packet that names the
/// service and a flush packet; what `git` wrote follows.
pub proof fn lemma_advertisement_framing(service: Seq<char>, output: GitOutput)
    requires
        output is Exited,
    ensures
        advertisement(service, output).status == 200,
        advertisement(service, output).headers.contains(
            ("Content-Type"@, advertisement_type(service)),
        ),
        (packet(vstd::utf8::encode_utf8(service_line(service))) + flush_packet()).is_prefix_of(
            advertisement(service, output).body,
        ),
        advertisement(service, output).body.skip(
            (packet(vstd::utf8::encode_utf8(service_line(service))) + flush_packet()).len() as int,
        ) == output->stdout@,
{
    let head = packet(vstd::utf8::encode_utf8(service_line(service))) + flush_packet();
    let response = advertisement(service, output);
    assert(response.headers[3] == ("Content-Type"@, advertisement_type(service)));
    assert(response.body.subrange(0, head.len() as int) =~= head);
    assert(response.body.skip(head.len() as int) =~= output->stdout@);
}

} // verus!
