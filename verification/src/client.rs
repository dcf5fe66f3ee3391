//! Single-shot IPC client: sends one `Ping` or `GetVersion`, prints the reply.
//!
//! The exit code is 0 on a pong and non-zero on anything else.
use crate::hexadecimal::hex_encoded;
use crate::ipc::freshness::is_fresh;
use crate::ipc::signing::{compute_hmac, law_signed_request_verifies, request_digest};
use crate::ipc::{
    Command, CommandView, ErrorCode, Request, RequestView, Response, ResponseView,
};
use crate::service::server::{dispatched, handled, HelperContextView};
use crate::text::{debug_quoted, debug_text, decimal, decimal_digits, same_text};
use crate::{shared_secret, IPC_SECRET};
use vstd::prelude::*;

verus! {

/// What is said of an argument that names no command, from the argument in quotes.
pub open spec fn unknown_command_text(quoted: Seq<char>) -> Seq<char> {
    "unknown command "@ + quoted + " (try `ping` or `version`)"@
}

/// What is said of an argument that names no command.
pub fn unknown_command(quoted: &str) -> (r: String)
    ensures
        r@ == unknown_command_text(quoted@),
{
    "unknown command ".to_owned().concat(quoted).concat(" (try `ping` or `version`)")
}

/// The command that the first argument asks for; `Ping` if there is none.
pub open spec fn asked_command(argument: Option<Seq<char>>) -> Result<CommandView, Seq<char>> {
    match argument {
        None => Ok(CommandView::Ping),
        Some(word) => if word == "ping"@ {
            Ok(CommandView::Ping)
        } else if word == "version"@ {
            Ok(CommandView::GetVersion)
        } else {
            Err(unknown_command_text(debug_text(word)))
        },
    }
}

/// The command that the first argument asks for, or what is wrong with it.
pub fn ping_command(argument: Option<&str>) -> (r: Result<Command, String>)
    ensures
        ({
            let asked = asked_command(
                match argument {
                    Some(word) => Some(word@),
                    None => None,
                },
            );
            &&& r is Ok <==> asked is Ok
            &&& r matches Ok(command) ==> asked == Ok::<_, Seq<char>>(command@)
            &&& r matches Err(message) ==> asked == Err::<CommandView, _>(message@)
        }),
{
    match argument {
        None => Ok(Command::Ping),
        Some(word) => {
            if same_text(word, "ping") {
                Ok(Command::Ping)
            } else if same_text(word, "version") {
                Ok(Command::GetVersion)
            } else {
                Err(unknown_command(debug_quoted(word).as_str()))
            }
        },
    }
}

/// A command, signed for the time `timestamp_nanos`.
pub open spec fn signed_request(timestamp_nanos: u64, command: CommandView) -> RequestView {
    RequestView {
        timestamp_nanos,
        hmac: hex_encoded(request_digest(shared_secret(), timestamp_nanos, command)),
        command,
    }
}

/// The request to send for a command when the clock reads `timestamp_nanos`.
pub fn send(timestamp_nanos: u64, command: Command) -> (r: Request)
    ensures
        r@ == signed_request(timestamp_nanos, command@),
{
    let hmac: String = compute_hmac(IPC_SECRET.as_bytes(), timestamp_nanos, &command);
    Request { timestamp_nanos, hmac, command }
}

/// What the client sends, the server takes: as long as the two clocks are
/// within the replay window of each other, the command is carried out.
pub proof fn law_client_is_accepted(
    sent_at: u64,
    received_at: u64,
    command: CommandView,
    helper: HelperContextView,
)
    requires
        is_fresh(received_at as int, sent_at as int),
    ensures
        handled(Some(received_at), signed_request(sent_at, command), helper) == dispatched(
            command,
            helper,
        ),
{
    law_signed_request_verifies(shared_secret(), sent_at, command);
}

/// What the client prints, and how it exits.
#[derive(Debug)]
pub struct PingReport {
    /// Whether the text goes to standard error.
    pub to_stderr: bool,
    pub text: String,
    pub exit_code: i32,
}

/// What the client prints, and how it exits, with its text as a sequence.
pub struct PingReportView {
    pub to_stderr: bool,
    pub text: Seq<char>,
    pub exit_code: i32,
}

impl View for PingReport {
    type V = PingReportView;

    open spec fn view(&self) -> PingReportView {
        PingReportView {
            to_stderr: self.to_stderr,
            text: self.text@,
            exit_code: self.exit_code,
        }
    }
}

/// The name of an error code.
pub open spec fn code_name(code: ErrorCode) -> Seq<char> {
    match code {
        ErrorCode::BadHmac => "BadHmac"@,
        ErrorCode::Replayed => "Replayed"@,
        ErrorCode::BadRequest => "BadRequest"@,
        ErrorCode::AlreadyRunning => "AlreadyRunning"@,
        ErrorCode::NotRunning => "NotRunning"@,
        ErrorCode::SpawnFailed => "SpawnFailed"@,
        ErrorCode::Internal => "Internal"@,
    }
}

/// What is printed of a response that a ping does not expect.
pub open spec fn unexpected_text(what: Seq<char>) -> PingReportView {
    PingReportView { to_stderr: true, text: "unexpected response: "@ + what, exit_code: 3 }
}

/// What is printed of a response.
pub open spec fn reported(response: ResponseView) -> PingReportView {
    match response {
        ResponseView::Pong => PingReportView { to_stderr: false, text: "pong"@, exit_code: 0 },
        ResponseView::Version { version, build_sha } => PingReportView {
            to_stderr: false,
            text: "v="@ + version + " sha="@ + build_sha,
            exit_code: 1,
        },
        ResponseView::Error { code, message } => PingReportView {
            to_stderr: true,
            text: "helper error: "@ + code_name(code) + " — "@ + message,
            exit_code: 2,
        },
        ResponseView::Started { pid } => unexpected_text(
            "Started { pid: "@ + decimal_digits(pid as nat) + " }"@,
        ),
        ResponseView::Stopped => unexpected_text("Stopped"@),
        ResponseView::DnsSet => unexpected_text("DnsSet"@),
        ResponseView::DnsCleared => unexpected_text("DnsCleared"@),
        ResponseView::ShuttingDown => unexpected_text("ShuttingDown"@),
    }
}

fn code_text(code: ErrorCode) -> (r: &'static str)
    ensures
        r@ == code_name(code),
{
    match code {
        ErrorCode::BadHmac => "BadHmac",
        ErrorCode::Replayed => "Replayed",
        ErrorCode::BadRequest => "BadRequest",
        ErrorCode::AlreadyRunning => "AlreadyRunning",
        ErrorCode::NotRunning => "NotRunning",
        ErrorCode::SpawnFailed => "SpawnFailed",
        ErrorCode::Internal => "Internal",
    }
}

fn unexpected(what: &str) -> (r: PingReport)
    ensures
        r@ == unexpected_text(what@),
{
    PingReport {
        to_stderr: true,
        text: "unexpected response: ".to_owned().concat(what),
        exit_code: 3,
    }
}

/// What to print of a response, and how to exit.
pub fn ping_report(response: &Response) -> (r: PingReport)
    ensures
        r@ == reported(response@),
{
    match response {
        Response::Pong => PingReport { to_stderr: false, text: "pong".to_owned(), exit_code: 0 },
        Response::Version { version, build_sha } => PingReport {
            to_stderr: false,
            text: "v=".to_owned().concat(version.as_str()).concat(" sha=").concat(
                build_sha.as_str(),
            ),
            exit_code: 1,
        },
        Response::Error { code, message } => PingReport {
            to_stderr: true,
            text: "helper error: ".to_owned().concat(code_text(*code)).concat(" — ").concat(
                message.as_str(),
            ),
            exit_code: 2,
        },
        Response::Started { pid } => unexpected(
            "Started { pid: ".to_owned().concat(decimal(*pid as u64).as_str()).concat(
                " }",
            ).as_str(),
        ),
        Response::Stopped => unexpected("Stopped"),
        Response::DnsSet => unexpected("DnsSet"),
        Response::DnsCleared => unexpected("DnsCleared"),
        Response::ShuttingDown => unexpected("ShuttingDown"),
    }
}

/// The exit code is 0 for a pong and for nothing else.
pub proof fn law_only_a_pong_is_success(response: ResponseView)
    ensures
        reported(response).exit_code == 0 <==> response is Pong,
{
}

} // verus!
