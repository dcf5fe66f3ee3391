//! Laws of the views: what a contract speaks of is what the value holds. A text
//! is shown as its characters and a list as its items, all of them and in order,
//! and everything else as it is.
use crate::client::PingReport;
use crate::install::{steps, InstallRun, InstallStep, InstallStepView};
use crate::ipc::framing::{FrameStep, FrameStepView};
use crate::ipc::{Command, CommandView, Request, Response, ResponseView};
use crate::service::command::{
    CommandLine, CommandOutcome, CommandOutcomeView, CommandStep, CommandStepView,
};
use crate::service::server::{
    parsed_view, HelperContext, RequestAction, RequestActionView, ServeAction, ServeActionView,
    ServeEvent, ServeEventView,
};
use crate::service::supervisor::{
    outcome, ChildStatus, ChildStatusView, MihomoStartConfig, StartAction, StartActionView,
    StartError, StartErrorView, StartEvent, StartEventView, StopAction, StopActionView, StopEvent,
    StopEventView,
};
use crate::uninstall::{
    UninstallAction, UninstallActionView, UninstallEvent, UninstallEventView,
};
use vstd::prelude::*;

verus! {

/// Whether `shown` are the characters of `list`, item for item.
pub open spec fn shows(shown: Seq<Seq<char>>, list: Seq<String>) -> bool {
    &&& shown.len() == list.len()
    &&& forall|i: int| 0 <= i < list.len() ==> #[trigger] shown[i] == list[i]@
}

/// Whether `shown` is the result `r` with its error in characters.
pub open spec fn shows_result<T>(shown: Result<T, Seq<char>>, r: Result<T, String>) -> bool {
    match (shown, r) {
        (Ok(a), Ok(b)) => a == b,
        (Err(a), Err(b)) => a == b@,
        _ => false,
    }
}

/// Requests and commands are shown as they are.
pub proof fn law_request_view(request: Request, parsed: Result<Request, String>)
    ensures
        request@.timestamp_nanos == request.timestamp_nanos,
        request@.hmac == request.hmac@,
        request@.command == request.command@,
        match parsed_view(parsed) {
            Ok(shown) => parsed is Ok && shown == parsed->Ok_0@,
            Err(error) => parsed is Err && error == parsed->Err_0@,
        },
        match (request.command, request.command@) {
            (Command::Ping, CommandView::Ping) => true,
            (
                Command::StartMihomo { config_dir, config_file, log_file },
                CommandView::StartMihomo { config_dir: d, config_file: f, log_file: l },
            ) => d == config_dir@ && f == config_file@ && l == log_file@,
            (Command::StopMihomo, CommandView::StopMihomo) => true,
            (Command::SetDns { servers }, CommandView::SetDns { servers: s }) => shows(
                s,
                servers@,
            ),
            (Command::ClearDns, CommandView::ClearDns) => true,
            (Command::GetVersion, CommandView::GetVersion) => true,
            (Command::Shutdown, CommandView::Shutdown) => true,
            _ => false,
        },
{
}

/// Responses are shown as they are, and so is what is printed of them.
pub proof fn law_response_view(response: Response, report: PingReport)
    ensures
        match (response, response@) {
            (Response::Pong, ResponseView::Pong) => true,
            (Response::Started { pid }, ResponseView::Started { pid: p }) => p == pid,
            (Response::Stopped, ResponseView::Stopped) => true,
            (Response::DnsSet, ResponseView::DnsSet) => true,
            (Response::DnsCleared, ResponseView::DnsCleared) => true,
            (
                Response::Version { version, build_sha },
                ResponseView::Version { version: v, build_sha: b },
            ) => v == version@ && b == build_sha@,
            (Response::ShuttingDown, ResponseView::ShuttingDown) => true,
            (Response::Error { code, message }, ResponseView::Error { code: c, message: m }) => c
                == code && m == message@,
            _ => false,
        },
        report@.to_stderr == report.to_stderr,
        report@.text == report.text@,
        report@.exit_code == report.exit_code,
{
}

/// A frame step is shown as it is.
pub proof fn law_frame_step_view(step: FrameStep)
    ensures
        match (step, step@) {
            (FrameStep::More(n), FrameStepView::More(m)) => m == n,
            (FrameStep::Body(body), FrameStepView::Body(b)) => b == body@,
            (FrameStep::Refused(error), FrameStepView::Refused(e)) => e == error,
            _ => false,
        },
{
}

/// Programs to run, and what came of them, are shown as they are.
pub proof fn law_command_view(line: CommandLine, result: CommandOutcome, step: CommandStep)
    ensures
        line@.program == line.program@,
        shows(line@.args, line.args@),
        match (result, result@) {
            (
                CommandOutcome::Finished { success, status, stdout, stderr },
                CommandOutcomeView::Finished { success: ok, status: s, stdout: o, stderr: e },
            ) => ok == success && s == status@ && o == stdout@ && e == stderr@,
            (
                CommandOutcome::NotStarted { error },
                CommandOutcomeView::NotStarted { error: e },
            ) => e == error@,
            _ => false,
        },
        match (step, step@) {
            (CommandStep::Run(line), CommandStepView::Run(l)) => l == line@,
            (CommandStep::Done(r), CommandStepView::Done(shown)) => shows_result(shown, r),
            _ => false,
        },
{
}

/// What a start is given, hears and does is shown as it is.
pub proof fn law_start_view(
    cfg: MihomoStartConfig,
    status: ChildStatus,
    error: StartError,
    event: StartEvent,
    action: StartAction,
    r: Result<(), String>,
)
    ensures
        cfg@.mihomo_path == cfg.mihomo_path@,
        cfg@.config_dir == cfg.config_dir@,
        cfg@.config_file == cfg.config_file@,
        cfg@.log_file == cfg.log_file@,
        shows_result(outcome(r), r),
        match (status, status@) {
            (ChildStatus::Exited, ChildStatusView::Exited) => true,
            (ChildStatus::Alive, ChildStatusView::Alive) => true,
            (ChildStatus::Failed(error), ChildStatusView::Failed(e)) => e == error@,
            _ => false,
        },
        match (error, error@) {
            (StartError::AlreadyRunning, StartErrorView::AlreadyRunning) => true,
            (StartError::BinaryNotFound(path), StartErrorView::BinaryNotFound(p)) => p == path@,
            (StartError::ConfigDirNotFound(path), StartErrorView::ConfigDirNotFound(p)) => p
                == path@,
            (StartError::ConfigFileOutside(name), StartErrorView::ConfigFileOutside(n)) => n
                == name@,
            (StartError::ConfigFileNotFound(path), StartErrorView::ConfigFileNotFound(p)) => p
                == path@,
            (
                StartError::LogNotOpened { path, error },
                StartErrorView::LogNotOpened { path: p, error: e },
            ) => p == path@ && e == error@,
            (StartError::LogNotCloned(error), StartErrorView::LogNotCloned(e)) => e == error@,
            (StartError::NotSpawned(error), StartErrorView::NotSpawned(e)) => e == error@,
            (StartError::NoPid, StartErrorView::NoPid) => true,
            _ => false,
        },
        match (event, event@) {
            (StartEvent::Begin, StartEventView::Begin) => true,
            (StartEvent::Child(status), StartEventView::Child(s)) => s == status@,
            (StartEvent::BinaryChecked(a), StartEventView::BinaryChecked(b)) => a == b,
            (StartEvent::ConfigDirChecked(a), StartEventView::ConfigDirChecked(b)) => a == b,
            (StartEvent::ConfigFileChecked(a), StartEventView::ConfigFileChecked(b)) => a == b,
            (StartEvent::LogOpened(r), StartEventView::LogOpened(s)) => shows_result(s, r),
            (StartEvent::LogCloned(r), StartEventView::LogCloned(s)) => shows_result(s, r),
            (StartEvent::Spawned(r), StartEventView::Spawned(s)) => shows_result(s, r),
            _ => false,
        },
        match (action, action@) {
            (StartAction::ProbeChild, StartActionView::ProbeChild) => true,
            (StartAction::CheckBinary(path), StartActionView::CheckBinary(p)) => p == path@,
            (StartAction::CheckConfigDir(path), StartActionView::CheckConfigDir(p)) => p == path@,
            (StartAction::CheckConfigFile(path), StartActionView::CheckConfigFile(p)) => p
                == path@,
            (StartAction::OpenLog(path), StartActionView::OpenLog(p)) => p == path@,
            (StartAction::CloneLog, StartActionView::CloneLog) => true,
            (StartAction::Spawn(line), StartActionView::Spawn(l)) => l == line@,
            (StartAction::Done(Ok(pid)), StartActionView::Done(Ok(p))) => p == pid,
            (StartAction::Done(Err(error)), StartActionView::Done(Err(e))) => e == error@,
            _ => false,
        },
{
}

/// What a stop hears and does is shown as it is.
pub proof fn law_stop_view(event: StopEvent, action: StopAction)
    ensures
        match (event, event@) {
            (StopEvent::Begin, StopEventView::Begin) => true,
            (
                StopEvent::Polled { status, waited_millis },
                StopEventView::Polled { status: s, waited_millis: w },
            ) => s == status@ && w == waited_millis,
            (StopEvent::Killed, StopEventView::Killed) => true,
            _ => false,
        },
        match (action, action@) {
            (StopAction::Terminate(pid), StopActionView::Terminate(p)) => p == pid,
            (StopAction::Sleep(millis), StopActionView::Sleep(m)) => m == millis,
            (StopAction::Kill, StopActionView::Kill) => true,
            (StopAction::Done(r), StopActionView::Done(s)) => shows_result(s, r),
            _ => false,
        },
{
}

/// What the server knows, hears and does is shown as it is.
pub proof fn law_server_view(
    helper: HelperContext,
    action: RequestAction,
    event: ServeEvent,
    next: ServeAction,
)
    ensures
        helper@.platform == helper.platform,
        helper@.mihomo_path == helper.mihomo_path@,
        helper@.build_sha == helper.build_sha@,
        match (action, action@) {
            (RequestAction::Reply(response), RequestActionView::Reply(r)) => r == response@,
            (RequestAction::ReplyAndExit(response), RequestActionView::ReplyAndExit(r)) => r
                == response@,
            (RequestAction::Start(cfg), RequestActionView::Start(c)) => c == cfg@,
            (RequestAction::Stop, RequestActionView::Stop) => true,
            (RequestAction::SetDns(servers), RequestActionView::SetDns(s)) => shows(s, servers@),
            (RequestAction::ClearDns, RequestActionView::ClearDns) => true,
            _ => false,
        },
        match (event, event@) {
            (ServeEvent::Begin, ServeEventView::Begin) => true,
            (ServeEvent::SocketChecked(a), ServeEventView::SocketChecked(b)) => a == b,
            (ServeEvent::StaleRemoved(r), ServeEventView::StaleRemoved(s)) => shows_result(s, r),
            (ServeEvent::Bound(r), ServeEventView::Bound(s)) => shows_result(s, r),
            (ServeEvent::ModeSet(r), ServeEventView::ModeSet(s)) => shows_result(s, r),
            (ServeEvent::Accepted(r), ServeEventView::Accepted(s)) => shows_result(s, r),
            (ServeEvent::Resumed, ServeEventView::Resumed) => true,
            (ServeEvent::ShutdownRequested, ServeEventView::ShutdownRequested) => true,
            (ServeEvent::SocketRemoved, ServeEventView::SocketRemoved) => true,
            _ => false,
        },
        match (next, next@) {
            (ServeAction::CheckSocket, ServeActionView::CheckSocket) => true,
            (ServeAction::RemoveStale, ServeActionView::RemoveStale) => true,
            (ServeAction::Bind, ServeActionView::Bind) => true,
            (ServeAction::SetMode(mode), ServeActionView::SetMode(m)) => m == mode,
            (ServeAction::Accept, ServeActionView::Accept) => true,
            (ServeAction::Handle, ServeActionView::Handle) => true,
            (ServeAction::Pause(millis), ServeActionView::Pause(m)) => m == millis,
            (ServeAction::RemoveSocket, ServeActionView::RemoveSocket) => true,
            (ServeAction::Done(r), ServeActionView::Done(s)) => shows_result(s, r),
            _ => false,
        },
{
}

/// The steps of an installation are shown as they are, one for one.
pub proof fn law_install_view(plan: Seq<InstallStep>, i: int, run: InstallRun)
    requires
        0 <= i < plan.len(),
    ensures
        steps(plan).len() == plan.len(),
        steps(plan)[i] == plan[i]@,
        match (plan[i], plan[i]@) {
            (InstallStep::Say(line), InstallStepView::Say(l)) => l == line@,
            (InstallStep::MakeDir(path), InstallStepView::MakeDir(p)) => p == path@,
            (InstallStep::Copy { from, to }, InstallStepView::Copy { from: f, to: t }) => f
                == from@ && t == to@,
            (InstallStep::Write { path, body }, InstallStepView::Write { path: p, body: b }) => p
                == path@ && b == body@,
            (InstallStep::Own(path), InstallStepView::Own(p)) => p == path@,
            (InstallStep::SetMode { path, mode }, InstallStepView::SetMode { path: p, mode: m })
                => p == path@ && m == mode,
            (InstallStep::Run(run), InstallStepView::Run(r)) => r == run@,
            _ => false,
        },
        run@.line == run.line@,
        run@.policy == run.policy,
        run@.name == run.name@,
        run@.label == run.label@,
        run@.done == run.done@,
{
}

/// What an uninstallation hears and does is shown as it is.
pub proof fn law_uninstall_view(event: UninstallEvent, action: UninstallAction)
    ensures
        match (event, event@) {
            (UninstallEvent::Begin, UninstallEventView::Begin) => true,
            (UninstallEvent::ShutdownAsked, UninstallEventView::ShutdownAsked) => true,
            (UninstallEvent::BootedOut(result), UninstallEventView::BootedOut(r)) => r == result@,
            (UninstallEvent::PlistChecked(a), UninstallEventView::PlistChecked(b)) => a == b,
            (UninstallEvent::PlistRemoved(r), UninstallEventView::PlistRemoved(s)) => shows_result(
                s,
                r,
            ),
            (UninstallEvent::DirChecked(a), UninstallEventView::DirChecked(b)) => a == b,
            (UninstallEvent::DirRemoved(r), UninstallEventView::DirRemoved(s)) => shows_result(
                s,
                r,
            ),
            (UninstallEvent::SocketChecked(a), UninstallEventView::SocketChecked(b)) => a == b,
            (UninstallEvent::SocketRemoved, UninstallEventView::SocketRemoved) => true,
            _ => false,
        },
        match (action, action@) {
            (UninstallAction::AskShutdown, UninstallActionView::AskShutdown) => true,
            (UninstallAction::Run(line), UninstallActionView::Run(l)) => l == line@,
            (UninstallAction::CheckPlist(path), UninstallActionView::CheckPlist(p)) => p == path@,
            (UninstallAction::RemovePlist(path), UninstallActionView::RemovePlist(p)) => p
                == path@,
            (UninstallAction::CheckDir(path), UninstallActionView::CheckDir(p)) => p == path@,
            (UninstallAction::RemoveDir(path), UninstallActionView::RemoveDir(p)) => p == path@,
            (UninstallAction::CheckSocket(path), UninstallActionView::CheckSocket(p)) => p
                == path@,
            (UninstallAction::RemoveSocket(path), UninstallActionView::RemoveSocket(p)) => p
                == path@,
            (UninstallAction::Done, UninstallActionView::Done) => true,
            _ => false,
        },
{
}

} // verus!
