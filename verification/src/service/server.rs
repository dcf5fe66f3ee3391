//! IPC server: one request per connection.
//!
//!   1. Read one frame and parse it to a request.
//!   2. Refuse it if its timestamp is not fresh or its HMAC does not match.
//!   3. Carry out the command and build a response.
//!   4. Write the response frame and close.
//!
//! Every request stands alone; there is no connection state.
use crate::ipc::freshness::{is_fresh_by, now_nanos, timestamp_fresh_at};
use crate::ipc::signing::{is_signed, verify_hmac};
use crate::ipc::{
    Command, CommandView, ErrorCode, Request, RequestView, Response, ResponseView,
};
use crate::paths::{mihomo_path, resolve_mihomo_path, Platform};
use crate::service::supervisor::{
    first_obstacle, is_patient, law_start, law_stop, law_stop_is_idempotent, mihomo_invocation,
    outcome, runs, start_error_text, start_run, stop_run, MihomoStartConfig, MihomoStartConfigView,
    Poll, StartError, StartErrorView, StartEventView, StartWorld, StopEventView,
};
use crate::text::texts;
use crate::{build_sha, build_sha_of, shared_secret, HELPER_VERSION, IPC_SECRET};
use vstd::prelude::*;

verus! {

/// What the helper knows of itself.
#[derive(Debug)]
pub struct HelperContext {
    pub platform: Platform,
    /// The mihomo binary that belongs to this helper.
    pub mihomo_path: String,
    /// The build that the helper reports.
    pub build_sha: String,
}

/// What the helper knows of itself, with its texts as sequences.
pub struct HelperContextView {
    pub platform: Platform,
    pub mihomo_path: Seq<char>,
    pub build_sha: Seq<char>,
}

impl View for HelperContext {
    type V = HelperContextView;

    open spec fn view(&self) -> HelperContextView {
        HelperContextView {
            platform: self.platform,
            mihomo_path: self.mihomo_path@,
            build_sha: self.build_sha@,
        }
    }
}

/// What a helper knows of itself that runs from `current_exe` and was built
/// where `git rev-parse --short` printed `git_output`.
pub open spec fn helper_context(
    platform: Platform,
    current_exe: Option<Seq<char>>,
    git_output: Option<Seq<char>>,
) -> HelperContextView {
    HelperContextView {
        platform,
        mihomo_path: mihomo_path(platform, current_exe),
        build_sha: build_sha_of(git_output),
    }
}

impl HelperContext {
    /// What the running helper knows of itself, from where its executable is and
    /// what `git rev-parse --short` printed when it was built, as far as either is
    /// known. The build is never empty.
    pub fn new(platform: Platform, current_exe: Option<String>, git_output: Option<&str>) -> (r:
        HelperContext)
        ensures
            r@ == helper_context(
                platform,
                match current_exe {
                    Some(exe) => Some(exe@),
                    None => None,
                },
                match git_output {
                    Some(output) => Some(output@),
                    None => None,
                },
            ),
            r@.build_sha.len() > 0,
    {
        HelperContext {
            platform,
            mihomo_path: resolve_mihomo_path(platform, current_exe),
            build_sha: build_sha(git_output),
        }
    }
}

/// What a request leads to.
#[derive(Debug)]
pub enum RequestAction {
    /// Answer; there is nothing to do.
    Reply(Response),
    /// Answer, then let the daemon exit.
    ReplyAndExit(Response),
    /// Start mihomo, then answer with `started_response`.
    Start(MihomoStartConfig),
    /// Stop mihomo, then answer with `stopped_response`.
    Stop,
    /// Set DNS, then answer with `dns_set_response`.
    SetDns(Vec<String>),
    /// Clear DNS, then answer with `dns_cleared_response`.
    ClearDns,
}

/// What a request leads to, with its texts as sequences.
pub enum RequestActionView {
    Reply(ResponseView),
    ReplyAndExit(ResponseView),
    Start(MihomoStartConfigView),
    Stop,
    SetDns(Seq<Seq<char>>),
    ClearDns,
}

impl View for RequestAction {
    type V = RequestActionView;

    open spec fn view(&self) -> RequestActionView {
        match self {
            RequestAction::Reply(response) => RequestActionView::Reply(response@),
            RequestAction::ReplyAndExit(response) => RequestActionView::ReplyAndExit(response@),
            RequestAction::Start(cfg) => RequestActionView::Start(cfg@),
            RequestAction::Stop => RequestActionView::Stop,
            RequestAction::SetDns(servers) => RequestActionView::SetDns(texts(servers@)),
            RequestAction::ClearDns => RequestActionView::ClearDns,
        }
    }
}

// ---------------------------------------------------------------------------
// Requests
// ---------------------------------------------------------------------------

/// What an authentic command leads to. Windows needs no DNS changes, so there
/// the DNS commands are answered at once.
pub open spec fn dispatched(command: CommandView, helper: HelperContextView) -> RequestActionView {
    match command {
        CommandView::Ping => RequestActionView::Reply(ResponseView::Pong),
        CommandView::GetVersion => RequestActionView::Reply(
            ResponseView::Version { version: HELPER_VERSION@, build_sha: helper.build_sha },
        ),
        CommandView::StartMihomo { config_dir, config_file, log_file } => RequestActionView::Start(
            MihomoStartConfigView {
                mihomo_path: helper.mihomo_path,
                config_dir,
                config_file,
                log_file,
            },
        ),
        CommandView::StopMihomo => RequestActionView::Stop,
        CommandView::SetDns { servers } => if helper.platform == Platform::Windows {
            RequestActionView::Reply(ResponseView::DnsSet)
        } else {
            RequestActionView::SetDns(servers)
        },
        CommandView::ClearDns => if helper.platform == Platform::Windows {
            RequestActionView::Reply(ResponseView::DnsCleared)
        } else {
            RequestActionView::ClearDns
        },
        CommandView::Shutdown => RequestActionView::ReplyAndExit(ResponseView::ShuttingDown),
    }
}

/// The answer to a request that is refused.
pub open spec fn refused(code: ErrorCode, message: Seq<char>) -> RequestActionView {
    RequestActionView::Reply(ResponseView::Error { code, message })
}

/// What a request leads to when the clock reads `now`: the replay window is
/// checked first, then the HMAC.
pub open spec fn handled(
    now: Option<u64>,
    request: RequestView,
    helper: HelperContextView,
) -> RequestActionView {
    if !is_fresh_by(now, request.timestamp_nanos) {
        refused(ErrorCode::Replayed, "timestamp outside ±30s window"@)
    } else if !is_signed(shared_secret(), request) {
        refused(ErrorCode::BadHmac, "HMAC mismatch — helper / GUI version skew?"@)
    } else {
        dispatched(request.command, helper)
    }
}

/// What an authentic command leads to.
pub fn dispatch(command: Command, helper: &HelperContext) -> (r: RequestAction)
    ensures
        r@ == dispatched(command@, helper@),
{
    match command {
        Command::Ping => RequestAction::Reply(Response::Pong),
        Command::GetVersion => RequestAction::Reply(
            Response::Version {
                version: HELPER_VERSION.to_owned(),
                build_sha: helper.build_sha.clone(),
            },
        ),
        Command::StartMihomo { config_dir, config_file, log_file } => RequestAction::Start(
            MihomoStartConfig {
                mihomo_path: helper.mihomo_path.clone(),
                config_dir,
                config_file,
                log_file,
            },
        ),
        Command::StopMihomo => RequestAction::Stop,
        Command::SetDns { servers } => {
            if helper.platform == Platform::Windows {
                RequestAction::Reply(Response::DnsSet)
            } else {
                RequestAction::SetDns(servers)
            }
        },
        Command::ClearDns => {
            if helper.platform == Platform::Windows {
                RequestAction::Reply(Response::DnsCleared)
            } else {
                RequestAction::ClearDns
            }
        },
        Command::Shutdown => RequestAction::ReplyAndExit(Response::ShuttingDown),
    }
}

/// What a request leads to when the clock reads `now`; a clock without a reading
/// makes no request fresh.
pub fn handle_request_at(now: Option<u64>, request: Request, helper: &HelperContext) -> (r:
    RequestAction)
    ensures
        r@ == handled(now, request@, helper@),
{
    let fresh: bool = match now {
        Some(n) => timestamp_fresh_at(n, request.timestamp_nanos),
        None => false,
    };
    if !fresh {
        return RequestAction::Reply(
            Response::Error {
                code: ErrorCode::Replayed,
                message: "timestamp outside ±30s window".to_owned(),
            },
        );
    }
    if !verify_hmac(IPC_SECRET.as_bytes(), &request) {
        return RequestAction::Reply(
            Response::Error {
                code: ErrorCode::BadHmac,
                message: "HMAC mismatch — helper / GUI version skew?".to_owned(),
            },
        );
    }
    dispatch(request.command, helper)
}

/// What a request leads to now. What the clock reads is not stated; whatever it
/// reads, the request is handled as `handle_request_at` says.
pub fn handle_request(request: Request, helper: &HelperContext) -> (r: RequestAction)
    ensures
        exists|now: Option<u64>| r@ == #[trigger] handled(now, request@, helper@),
{
    let now: Option<u64> = now_nanos();
    handle_request_at(now, request, helper)
}

/// What a frame leads to, given the request that it was parsed to or the
/// parser's words for why it is none.
pub open spec fn received(
    now: Option<u64>,
    parsed: Result<RequestView, Seq<char>>,
    helper: HelperContextView,
) -> RequestActionView {
    match parsed {
        Ok(request) => handled(now, request, helper),
        Err(error) => refused(ErrorCode::BadRequest, "parsing IPC request JSON: "@ + error),
    }
}

/// A parsed frame, with its texts as sequences.
pub open spec fn parsed_view(parsed: Result<Request, String>) -> Result<RequestView, Seq<char>> {
    match parsed {
        Ok(request) => Ok(request@),
        Err(error) => Err(error@),
    }
}

/// What a frame leads to now. A frame that is no request is answered as such,
/// whatever the clock reads.
pub fn handle_connection(parsed: Result<Request, String>, helper: &HelperContext) -> (r:
    RequestAction)
    ensures
        exists|now: Option<u64>| r@ == #[trigger] received(now, parsed_view(parsed), helper@),
        parsed is Err ==> r@ == received(None, parsed_view(parsed), helper@),
{
    let ghost input = parsed_view(parsed);
    let now: Option<u64> = now_nanos();
    let r: RequestAction = match parsed {
        Ok(request) => handle_request_at(now, request, helper),
        Err(error) => RequestAction::Reply(
            Response::Error {
                code: ErrorCode::BadRequest,
                message: "parsing IPC request JSON: ".to_owned().concat(error.as_str()),
            },
        ),
    };
    assert(r@ == received(now, input, helper@));
    r
}

// ---------------------------------------------------------------------------
// Responses
// ---------------------------------------------------------------------------

/// The answer to a start: only a mihomo that already runs is `AlreadyRunning`.
pub open spec fn start_reply(result: Result<u32, StartErrorView>) -> ResponseView {
    match result {
        Ok(pid) => ResponseView::Started { pid },
        Err(error) => ResponseView::Error {
            code: if error is AlreadyRunning {
                ErrorCode::AlreadyRunning
            } else {
                ErrorCode::SpawnFailed
            },
            message: start_error_text(error),
        },
    }
}

/// The answer to something that was done, or went wrong inside.
pub open spec fn done_reply(result: Result<(), Seq<char>>, done: ResponseView) -> ResponseView {
    match result {
        Ok(_) => done,
        Err(error) => ResponseView::Error { code: ErrorCode::Internal, message: error },
    }
}

/// The answer to a start.
pub fn started_response(result: Result<u32, StartError>) -> (r: Response)
    ensures
        r@ == start_reply(
            match result {
                Ok(pid) => Ok(pid),
                Err(error) => Err(error@),
            },
        ),
{
    match result {
        Ok(pid) => Response::Started { pid },
        Err(error) => {
            let code: ErrorCode = match error {
                StartError::AlreadyRunning => ErrorCode::AlreadyRunning,
                _ => ErrorCode::SpawnFailed,
            };
            Response::Error { code, message: error.message() }
        },
    }
}

fn done_response(result: Result<(), String>, done: Response) -> (r: Response)
    ensures
        r@ == done_reply(outcome(result), done@),
{
    match result {
        Ok(_) => done,
        Err(error) => Response::Error { code: ErrorCode::Internal, message: error },
    }
}

/// The answer to a stop.
pub fn stopped_response(result: Result<(), String>) -> (r: Response)
    ensures
        r@ == done_reply(outcome(result), ResponseView::Stopped),
{
    done_response(result, Response::Stopped)
}

/// The answer to a change of DNS.
pub fn dns_set_response(result: Result<(), String>) -> (r: Response)
    ensures
        r@ == done_reply(outcome(result), ResponseView::DnsSet),
{
    done_response(result, Response::DnsSet)
}

/// The answer to DNS given back to DHCP.
pub fn dns_cleared_response(result: Result<(), String>) -> (r: Response)
    ensures
        r@ == done_reply(outcome(result), ResponseView::DnsCleared),
{
    done_response(result, Response::DnsCleared)
}

// ---------------------------------------------------------------------------
// Laws of requests
// ---------------------------------------------------------------------------

/// Only a fresh, signed request leads to anything but an error reply: every
/// other frame is answered with an error, and which one it is says why.
pub proof fn law_refusals(
    now: Option<u64>,
    parsed: Result<RequestView, Seq<char>>,
    helper: HelperContextView,
)
    ensures
        ({
            let action = received(now, parsed, helper);
            let replied = action->Reply_0;
            &&& parsed is Err ==> action is Reply && replied is Error && replied->code
                == ErrorCode::BadRequest
            &&& parsed matches Ok(request) ==> {
                let fresh = is_fresh_by(now, request.timestamp_nanos);
                let signed = is_signed(shared_secret(), request);
                &&& !fresh ==> action is Reply && replied is Error && replied->code
                    == ErrorCode::Replayed
                &&& fresh && !signed ==> action is Reply && replied is Error && replied->code
                    == ErrorCode::BadHmac
                &&& fresh && signed ==> action == dispatched(request.command, helper) && !(
                action is Reply && replied is Error)
            }
        }),
{
}

/// No request chooses the binary that runs with the helper's privileges.
pub proof fn law_binary_is_the_helpers(
    now: Option<u64>,
    parsed: Result<RequestView, Seq<char>>,
    helper: HelperContextView,
)
    ensures
        received(now, parsed, helper) matches RequestActionView::Start(cfg) ==> cfg.mihomo_path
            == helper.mihomo_path,
{
}

/// A helper that knows itself never reports an empty build, whichever way it was
/// built and wherever it runs from.
pub proof fn law_version_names_a_build(
    now: Option<u64>,
    parsed: Result<RequestView, Seq<char>>,
    platform: Platform,
    current_exe: Option<Seq<char>>,
    git_output: Option<Seq<char>>,
)
    ensures
        received(
            now,
            parsed,
            helper_context(platform, current_exe, git_output),
        ) matches RequestActionView::Reply(response) ==> (
        response matches ResponseView::Version { version, build_sha } ==> build_sha.len() > 0),
{
    reveal_strlit("unknown");
}

/// The daemon exits for nothing but a fresh, signed `Shutdown`.
pub proof fn law_only_shutdown_exits(
    now: Option<u64>,
    parsed: Result<RequestView, Seq<char>>,
    helper: HelperContextView,
)
    ensures
        received(now, parsed, helper) is ReplyAndExit <==> (parsed matches Ok(request)
            && is_fresh_by(now, request.timestamp_nanos) && is_signed(
            shared_secret(),
            request,
        ) && request.command is Shutdown),
{
}

/// A start is answered with the process id of the mihomo that it spawned, and
/// with `AlreadyRunning` exactly if mihomo runs; everything else that keeps it
/// from running is `SpawnFailed`.
pub proof fn law_start_reply(child: Option<u32>, cfg: MihomoStartConfigView, world: StartWorld)
    ensures
        ({
            let run = start_run(child, cfg, StartEventView::Begin, world, 8);
            let reply = start_reply(run.result->0);
            &&& run.result is Some
            &&& reply matches ResponseView::Started { pid } ==> run.child == Some(pid)
                && run.spawned == seq![mihomo_invocation(cfg)]
            &&& reply is Error ==> reply->code == (if runs(child, world.status) {
                ErrorCode::AlreadyRunning
            } else {
                ErrorCode::SpawnFailed
            })
            &&& reply is Started || reply is Error
            &&& runs(child, world.status) ==> reply is Error
            &&& !runs(child, world.status) ==> (reply is Started <==> first_obstacle(
                cfg,
                world,
            ) is None && world.spawned matches Ok(Some(_)))
        }),
{
    law_start(child, cfg, world);
}

/// A stop is answered with `Stopped` even if nothing ran, and otherwise unless
/// the system could not say what became of mihomo.
pub proof fn law_stop_reply(child: Option<u32>, polls: Seq<Poll>, k: int)
    requires
        0 <= k < polls.len(),
        forall|i: int| 0 <= i < k ==> is_patient(#[trigger] polls[i]),
        !is_patient(polls[k]),
    ensures
        ({
            let run = stop_run(child, StopEventView::Begin, polls);
            let reply = done_reply(run.result->0, ResponseView::Stopped);
            &&& run.result is Some
            &&& child is None || !(polls[k].status is Failed) ==> reply == ResponseView::Stopped
            &&& child is Some && polls[k].status is Failed ==> reply is Error && reply->code
                == ErrorCode::Internal
        }),
{
    match child {
        Some(pid) => law_stop(pid, polls, k),
        None => law_stop_is_idempotent(child, polls),
    }
}

// ---------------------------------------------------------------------------
// The socket
// ---------------------------------------------------------------------------

/// The mode of the socket: anyone may connect, the HMAC authenticates.
pub const SOCKET_MODE: u32 = 0o666;

/// How long to wait after a failed accept, in milliseconds.
pub const ACCEPT_BACKOFF_MILLIS: u64 = 200;

/// What happened to the server.
#[derive(Debug)]
pub enum ServeEvent {
    /// The server is to run.
    Begin,
    /// Whether something stands at the socket's path.
    SocketChecked(bool),
    /// The stale socket was removed, or the system's words for why not.
    StaleRemoved(Result<(), String>),
    /// The socket was bound, or the system's words for why not.
    Bound(Result<(), String>),
    /// The mode was set, or the system's words for why not.
    ModeSet(Result<(), String>),
    /// A connection was accepted, or the system's words for why not.
    Accepted(Result<(), String>),
    /// The pause after a failed accept is over, or a connection was handed on.
    Resumed,
    /// The daemon is to exit.
    ShutdownRequested,
    /// The removal of the socket was tried.
    SocketRemoved,
}

/// What happened to the server, with its texts as sequences.
pub enum ServeEventView {
    Begin,
    SocketChecked(bool),
    StaleRemoved(Result<(), Seq<char>>),
    Bound(Result<(), Seq<char>>),
    ModeSet(Result<(), Seq<char>>),
    Accepted(Result<(), Seq<char>>),
    Resumed,
    ShutdownRequested,
    SocketRemoved,
}

impl View for ServeEvent {
    type V = ServeEventView;

    open spec fn view(&self) -> ServeEventView {
        match self {
            ServeEvent::Begin => ServeEventView::Begin,
            ServeEvent::SocketChecked(b) => ServeEventView::SocketChecked(*b),
            ServeEvent::StaleRemoved(r) => ServeEventView::StaleRemoved(outcome(*r)),
            ServeEvent::Bound(r) => ServeEventView::Bound(outcome(*r)),
            ServeEvent::ModeSet(r) => ServeEventView::ModeSet(outcome(*r)),
            ServeEvent::Accepted(r) => ServeEventView::Accepted(outcome(*r)),
            ServeEvent::Resumed => ServeEventView::Resumed,
            ServeEvent::ShutdownRequested => ServeEventView::ShutdownRequested,
            ServeEvent::SocketRemoved => ServeEventView::SocketRemoved,
        }
    }
}

/// What the server does next.
#[derive(Debug)]
pub enum ServeAction {
    /// See whether something stands at the socket's path.
    CheckSocket,
    /// Remove the socket that a crashed run left.
    RemoveStale,
    /// Bind the socket.
    Bind,
    /// Set the mode of the socket.
    SetMode(u32),
    /// Wait for a connection or for the order to exit.
    Accept,
    /// Hand the connection to a task of its own.
    Handle,
    /// Pause for this many milliseconds.
    Pause(u64),
    /// Try to remove the socket.
    RemoveSocket,
    /// Nothing more: the server has ended, or why it cannot run.
    Done(Result<(), String>),
}

/// What the server does next, with its texts as sequences.
pub enum ServeActionView {
    CheckSocket,
    RemoveStale,
    Bind,
    SetMode(u32),
    Accept,
    Handle,
    Pause(u64),
    RemoveSocket,
    Done(Result<(), Seq<char>>),
}

impl View for ServeAction {
    type V = ServeActionView;

    open spec fn view(&self) -> ServeActionView {
        match self {
            ServeAction::CheckSocket => ServeActionView::CheckSocket,
            ServeAction::RemoveStale => ServeActionView::RemoveStale,
            ServeAction::Bind => ServeActionView::Bind,
            ServeAction::SetMode(mode) => ServeActionView::SetMode(*mode),
            ServeAction::Accept => ServeActionView::Accept,
            ServeAction::Handle => ServeActionView::Handle,
            ServeAction::Pause(millis) => ServeActionView::Pause(*millis),
            ServeAction::RemoveSocket => ServeActionView::RemoveSocket,
            ServeAction::Done(r) => ServeActionView::Done(outcome(*r)),
        }
    }
}

/// Why the server cannot run.
pub open spec fn socket_failure(what: Seq<char>, path: Seq<char>, error: Seq<char>) -> Seq<char> {
    what + path + ": "@ + error
}

/// What the server at `path` does next. A failed accept does not end it.
pub open spec fn serve_step(path: Seq<char>, event: ServeEventView) -> ServeActionView {
    match event {
        ServeEventView::Begin => ServeActionView::CheckSocket,
        ServeEventView::SocketChecked(exists) => if exists {
            ServeActionView::RemoveStale
        } else {
            ServeActionView::Bind
        },
        ServeEventView::StaleRemoved(Ok(_)) => ServeActionView::Bind,
        ServeEventView::StaleRemoved(Err(error)) => ServeActionView::Done(
            Err(socket_failure("removing stale socket "@, path, error)),
        ),
        ServeEventView::Bound(Ok(_)) => ServeActionView::SetMode(SOCKET_MODE),
        ServeEventView::Bound(Err(error)) => ServeActionView::Done(
            Err(socket_failure("binding "@, path, error)),
        ),
        ServeEventView::ModeSet(Ok(_)) => ServeActionView::Accept,
        ServeEventView::ModeSet(Err(error)) => ServeActionView::Done(
            Err(socket_failure("chmod 666 "@, path, error)),
        ),
        ServeEventView::Accepted(Ok(_)) => ServeActionView::Handle,
        ServeEventView::Accepted(Err(_)) => ServeActionView::Pause(ACCEPT_BACKOFF_MILLIS),
        ServeEventView::Resumed => ServeActionView::Accept,
        ServeEventView::ShutdownRequested => ServeActionView::RemoveSocket,
        ServeEventView::SocketRemoved => ServeActionView::Done(Ok(())),
    }
}

fn socket_error(what: &str, path: &str, error: &str) -> (r: ServeAction)
    ensures
        r@ == ServeActionView::Done(Err(socket_failure(what@, path@, error@))),
{
    ServeAction::Done(Err(what.to_owned().concat(path).concat(": ").concat(error)))
}

/// Decides what the server at `path` does next.
pub fn serve(path: &str, event: ServeEvent) -> (r: ServeAction)
    ensures
        r@ == serve_step(path@, event@),
{
    match event {
        ServeEvent::Begin => ServeAction::CheckSocket,
        ServeEvent::SocketChecked(exists) => {
            if exists {
                ServeAction::RemoveStale
            } else {
                ServeAction::Bind
            }
        },
        ServeEvent::StaleRemoved(Ok(_)) => ServeAction::Bind,
        ServeEvent::StaleRemoved(Err(error)) => socket_error(
            "removing stale socket ",
            path,
            error.as_str(),
        ),
        ServeEvent::Bound(Ok(_)) => ServeAction::SetMode(SOCKET_MODE),
        ServeEvent::Bound(Err(error)) => socket_error("binding ", path, error.as_str()),
        ServeEvent::ModeSet(Ok(_)) => ServeAction::Accept,
        ServeEvent::ModeSet(Err(error)) => socket_error("chmod 666 ", path, error.as_str()),
        ServeEvent::Accepted(Ok(_)) => ServeAction::Handle,
        ServeEvent::Accepted(Err(_)) => ServeAction::Pause(ACCEPT_BACKOFF_MILLIS),
        ServeEvent::Resumed => ServeAction::Accept,
        ServeEvent::ShutdownRequested => ServeAction::RemoveSocket,
        ServeEvent::SocketRemoved => ServeAction::Done(Ok(())),
    }
}

/// What the system would answer while the server comes up.
pub struct ServeWorld {
    pub stale: bool,
    pub removed: Result<(), Seq<char>>,
    pub bound: Result<(), Seq<char>>,
    pub mode_set: Result<(), Seq<char>>,
}

/// The event that an action leads to while the server comes up.
pub open spec fn serve_answer(world: ServeWorld, action: ServeActionView) -> ServeEventView {
    match action {
        ServeActionView::CheckSocket => ServeEventView::SocketChecked(world.stale),
        ServeActionView::RemoveStale => ServeEventView::StaleRemoved(world.removed),
        ServeActionView::Bind => ServeEventView::Bound(world.bound),
        ServeActionView::SetMode(_) => ServeEventView::ModeSet(world.mode_set),
        _ => ServeEventView::Resumed,
    }
}

/// The actions from `event` on until the server accepts connections or ends, for
/// at most `steps` events.
pub open spec fn serve_actions(
    path: Seq<char>,
    event: ServeEventView,
    world: ServeWorld,
    steps: nat,
) -> Seq<ServeActionView>
    decreases steps,
{
    if steps == 0 {
        Seq::empty()
    } else {
        let action = serve_step(path, event);
        if action is Accept || action is Done {
            seq![action]
        } else {
            seq![action] + serve_actions(
                path,
                serve_answer(world, action),
                world,
                (steps - 1) as nat,
            )
        }
    }
}

/// The server accepts connections exactly if it could clear a stale socket away,
/// bind its own and open it to every user; else it ends with the first failure.
/// A stale socket is removed before the new one is bound.
pub proof fn law_server_comes_up(path: Seq<char>, world: ServeWorld)
    ensures
        ({
            let actions = serve_actions(path, ServeEventView::Begin, world, 5);
            let prefix = if world.stale {
                seq![ServeActionView::CheckSocket, ServeActionView::RemoveStale]
            } else {
                seq![ServeActionView::CheckSocket]
            };
            if world.stale && world.removed is Err {
                actions == prefix + seq![
                    ServeActionView::Done(
                        Err(
                            socket_failure(
                                "removing stale socket "@,
                                path,
                                world.removed->Err_0,
                            ),
                        ),
                    ),
                ]
            } else if world.bound is Err {
                actions == prefix + seq![
                    ServeActionView::Bind,
                    ServeActionView::Done(
                        Err(socket_failure("binding "@, path, world.bound->Err_0)),
                    ),
                ]
            } else if world.mode_set is Err {
                actions == prefix + seq![
                    ServeActionView::Bind,
                    ServeActionView::SetMode(SOCKET_MODE),
                    ServeActionView::Done(
                        Err(socket_failure("chmod 666 "@, path, world.mode_set->Err_0)),
                    ),
                ]
            } else {
                actions == prefix + seq![
                    ServeActionView::Bind,
                    ServeActionView::SetMode(SOCKET_MODE),
                    ServeActionView::Accept,
                ]
            }
        }),
{
    reveal_with_fuel(serve_actions, 6);
}

/// Once it is up, nothing but the order to exit ends the server: after every
/// accept, failed or not, it comes back to accepting.
pub proof fn law_accepting_goes_on(path: Seq<char>, accepted: Result<(), Seq<char>>)
    ensures
        serve_step(path, ServeEventView::Accepted(accepted)) is Handle || serve_step(
            path,
            ServeEventView::Accepted(accepted),
        ) is Pause,
        serve_step(path, ServeEventView::Resumed) is Accept,
        serve_step(path, ServeEventView::ShutdownRequested) is RemoveSocket,
        serve_step(path, ServeEventView::SocketRemoved) == ServeActionView::Done(Ok(())),
{
}

} // verus!
