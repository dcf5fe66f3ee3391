//! Laws of the server and of the client.
use crate::client::{asked_command, code_name, reported, signed_request, unknown_command_text};
use crate::hexadecimal::{hex_decoded, hex_encoded};
use crate::ipc::signing::{hmac_sha256_digest, signing_message};
use crate::ipc::{CommandView, ErrorCode, RequestView, ResponseView};
use crate::laws::text::law_trimmed;
use crate::paths::{mihomo_path, Platform};
use crate::service::server::{
    dispatched, done_reply, helper_context, received, serve_step, start_reply, HelperContextView,
    RequestActionView, ServeActionView, ServeEventView,
};
use crate::service::supervisor::{start_error_text, StartErrorView};
use crate::text::{decimal_digits, is_white_space, trimmed};
use crate::{build_sha_of, shared_secret, HELPER_VERSION};
use vstd::prelude::*;
use vstd::utf8::encode_utf8;

verus! {

// ---------------------------------------------------------------------------
// Requests
// ---------------------------------------------------------------------------

/// Which command an action answers to. mihomo is started, stopped and given
/// servers by the commands for that alone, with what these say; that something
/// was started or stopped is never said before it was done, and that DNS was set
/// or cleared only on Windows, where there is nothing to do. The daemon exits for
/// `Shutdown` alone, and no command on its own leads to an error.
pub proof fn law_action_answers_the_command(command: CommandView, helper: HelperContextView)
    ensures
        match dispatched(command, helper) {
            RequestActionView::Start(cfg) => {
                &&& command == (CommandView::StartMihomo {
                    config_dir: cfg.config_dir,
                    config_file: cfg.config_file,
                    log_file: cfg.log_file,
                })
                &&& cfg.mihomo_path == helper.mihomo_path
            },
            RequestActionView::Stop => command == CommandView::StopMihomo,
            RequestActionView::SetDns(servers) => command == (CommandView::SetDns { servers })
                && helper.platform != Platform::Windows,
            RequestActionView::ClearDns => command == CommandView::ClearDns && helper.platform
                != Platform::Windows,
            RequestActionView::ReplyAndExit(response) => command == CommandView::Shutdown
                && response == ResponseView::ShuttingDown,
            RequestActionView::Reply(response) => match response {
                ResponseView::Pong => command == CommandView::Ping,
                ResponseView::Version { version, build_sha } => command == CommandView::GetVersion
                    && version == HELPER_VERSION@ && build_sha == helper.build_sha,
                ResponseView::DnsSet => command is SetDns && helper.platform == Platform::Windows,
                ResponseView::DnsCleared => command == CommandView::ClearDns && helper.platform
                    == Platform::Windows,
                ResponseView::Started { .. } => false,
                ResponseView::Stopped => false,
                ResponseView::ShuttingDown => false,
                ResponseView::Error { .. } => false,
            },
        },
{
}

/// A request is carried out exactly if its timestamp lies within thirty seconds of
/// the clock and its HMAC is the one of its own timestamp and command under the
/// shared secret. A stale one is told so whatever its HMAC, and without a clock
/// every request is stale.
pub proof fn law_request_is_carried_out(
    now: Option<u64>,
    request: RequestView,
    helper: HelperContextView,
)
    ensures
        ({
            let t = request.timestamp_nanos;
            let fresh = now matches Some(n) && n - t <= 30 * 1_000_000_000 && t - n <= 30
                * 1_000_000_000;
            let signed = hex_decoded(request.hmac) == Some(
                hmac_sha256_digest(shared_secret(), signing_message(t, request.command)),
            );
            received(now, Ok(request), helper) == if !fresh {
                RequestActionView::Reply(
                    ResponseView::Error {
                        code: ErrorCode::Replayed,
                        message: "timestamp outside ±30s window"@,
                    },
                )
            } else if !signed {
                RequestActionView::Reply(
                    ResponseView::Error {
                        code: ErrorCode::BadHmac,
                        message: "HMAC mismatch — helper / GUI version skew?"@,
                    },
                )
            } else {
                dispatched(request.command, helper)
            }
        }),
{
}

/// The shared secret is the one text that both sides hold, whole and in UTF-8.
pub proof fn law_shared_secret()
    ensures
        shared_secret() == encode_utf8(
            "sc-helper-shared-secret-please-rotate-on-major-version-bump"@,
        ),
{
}

/// What is no request is answered with the parser's words, whatever the clock
/// reads and whichever helper it is.
pub proof fn law_no_request(now: Option<u64>, error: Seq<char>, helper: HelperContextView)
    ensures
        received(now, Err(error), helper) == RequestActionView::Reply(
            ResponseView::Error {
                code: ErrorCode::BadRequest,
                message: "parsing IPC request JSON: "@ + error,
            },
        ),
{
}

/// The answer to a start tells the process id, or why there is none in the words
/// of the error; it is `AlreadyRunning` for a mihomo that runs and for nothing
/// else. The answer to everything else that was tried is that it was done, or an
/// internal error in the words that came.
pub proof fn law_answers(
    pid: u32,
    error: StartErrorView,
    done: ResponseView,
    words: Seq<char>,
)
    ensures
        start_reply(Ok(pid)) == (ResponseView::Started { pid }),
        start_reply(Err(error)) matches ResponseView::Error { code, message } && message
            == start_error_text(error) && code == if error == StartErrorView::AlreadyRunning {
            ErrorCode::AlreadyRunning
        } else {
            ErrorCode::SpawnFailed
        },
        done_reply(Ok(()), done) == done,
        done_reply(Err(words), done) == (ResponseView::Error {
            code: ErrorCode::Internal,
            message: words,
        }),
{
}

/// What a helper knows of itself: its system, the mihomo binary that goes with its
/// own executable, and its build.
pub proof fn law_helper_context(
    platform: Platform,
    current_exe: Option<Seq<char>>,
    git_output: Option<Seq<char>>,
)
    ensures
        ({
            let helper = helper_context(platform, current_exe, git_output);
            &&& helper.platform == platform
            &&& helper.mihomo_path == mihomo_path(platform, current_exe)
            &&& helper.build_sha == build_sha_of(git_output)
        }),
{
}

/// The build is the commit that git printed, without the white space around it;
/// if git printed none or did not run, it is `unknown`.
pub proof fn law_build(before: Seq<char>, commit: Seq<char>, after: Seq<char>)
    requires
        crate::laws::text::blank(before),
        crate::laws::text::blank(after),
        commit.len() > 0 ==> !is_white_space(commit[0]) && !is_white_space(commit.last()),
    ensures
        build_sha_of(Some(before + commit + after)) == if commit.len() > 0 {
            commit
        } else {
            "unknown"@
        },
        build_sha_of(None) == "unknown"@,
{
    law_trimmed(before, commit, after);
    assert(trimmed(before + commit + after) == commit);
}

// ---------------------------------------------------------------------------
// The socket
// ---------------------------------------------------------------------------

/// What the server does after each event. A stale socket goes before the new one
/// is bound, and the mode comes after; each failure on the way names what failed,
/// the path and the system's words. An accepted connection is handed on, a failed
/// accept only pauses, and after both the server accepts again. The order to exit
/// removes the socket, and that ends the server well.
pub proof fn law_server_goes_on(path: Seq<char>, error: Seq<char>)
    ensures
        serve_step(path, ServeEventView::Begin) == ServeActionView::CheckSocket,
        serve_step(path, ServeEventView::SocketChecked(true)) == ServeActionView::RemoveStale,
        serve_step(path, ServeEventView::SocketChecked(false)) == ServeActionView::Bind,
        serve_step(path, ServeEventView::StaleRemoved(Ok(()))) == ServeActionView::Bind,
        serve_step(path, ServeEventView::Bound(Ok(()))) == ServeActionView::SetMode(0o666),
        serve_step(path, ServeEventView::ModeSet(Ok(()))) == ServeActionView::Accept,
        serve_step(path, ServeEventView::Accepted(Ok(()))) == ServeActionView::Handle,
        serve_step(path, ServeEventView::Accepted(Err(error))) == ServeActionView::Pause(200),
        serve_step(path, ServeEventView::Resumed) == ServeActionView::Accept,
        serve_step(path, ServeEventView::ShutdownRequested) == ServeActionView::RemoveSocket,
        serve_step(path, ServeEventView::SocketRemoved) == ServeActionView::Done(Ok(())),
        serve_step(path, ServeEventView::StaleRemoved(Err(error))) == ServeActionView::Done(
            Err("removing stale socket "@ + path + ": "@ + error),
        ),
        serve_step(path, ServeEventView::Bound(Err(error))) == ServeActionView::Done(
            Err("binding "@ + path + ": "@ + error),
        ),
        serve_step(path, ServeEventView::ModeSet(Err(error))) == ServeActionView::Done(
            Err("chmod 666 "@ + path + ": "@ + error),
        ),
{
}

// ---------------------------------------------------------------------------
// The client
// ---------------------------------------------------------------------------

/// The client sends what it was asked to send, at the time that it is told, with
/// the HMAC of both under the shared secret in lowercase hexadecimal.
pub proof fn law_client_signs_what_it_sends(timestamp_nanos: u64, command: CommandView)
    ensures
        ({
            let request = signed_request(timestamp_nanos, command);
            &&& request.timestamp_nanos == timestamp_nanos
            &&& request.command == command
            &&& request.hmac == hex_encoded(
                hmac_sha256_digest(shared_secret(), signing_message(timestamp_nanos, command)),
            )
        }),
{
}

/// No argument and `ping` ask for a ping, `version` asks for the version, and
/// every other argument is named in the error.
pub proof fn law_client_arguments(word: Seq<char>)
    ensures
        asked_command(None) == Ok::<_, Seq<char>>(CommandView::Ping),
        match asked_command(Some(word)) {
            Ok(command) => {
                ||| command == CommandView::Ping && word == "ping"@
                ||| command == CommandView::GetVersion && word == "version"@
            },
            Err(message) => {
                &&& word != "ping"@
                &&& word != "version"@
                &&& message == unknown_command_text(crate::text::debug_text(word))
            },
        },
        unknown_command_text(word) == "unknown command "@ + word
            + " (try `ping` or `version`)"@,
{
}

/// What the client prints: a pong and a version to standard output, as they came,
/// everything else to standard error; and it exits 0 for a pong alone, 2 for an
/// error of the helper and 3 for a response to something that it never asks.
pub proof fn law_client_reports(response: ResponseView)
    ensures
        ({
            let r = reported(response);
            match response {
                ResponseView::Pong => r.text == "pong"@ && !r.to_stderr && r.exit_code == 0,
                ResponseView::Version { version, build_sha } => r.text == "v="@ + version
                    + " sha="@ + build_sha && !r.to_stderr && r.exit_code == 1,
                ResponseView::Error { code, message } => r.text == "helper error: "@ + code_name(
                    code,
                ) + " — "@ + message && r.to_stderr && r.exit_code == 2,
                ResponseView::Started { pid } => r.text == "unexpected response: "@ + (
                "Started { pid: "@ + decimal_digits(pid as nat) + " }"@) && r.to_stderr
                    && r.exit_code == 3,
                _ => r.to_stderr && r.exit_code == 3,
            }
        }),
{
}

} // verus!
