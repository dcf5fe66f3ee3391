//! IPC wire format.
//!
//!   * One request and one response per connection, no multiplexing.
//!   * Both directions are length-prefixed JSON:
//!         [4 bytes big-endian: body length] [N bytes: JSON body]
//!   * A request carries `timestamp_nanos` against replay, `hmac` for
//!     authentication, and `command`, the payload.
//!   * The HMAC runs over the big-endian `timestamp_nanos` followed by the
//!     canonical JSON of the command: no whitespace, the tag `kind` first, then
//!     the fields in declaration order.
//!   * A body is at most 1 MiB; a longer one closes the connection.
use crate::text::texts;
use vstd::prelude::*;

pub mod canonical;
pub mod framing;
pub mod freshness;
pub mod signing;

pub use canonical::canonical_command_bytes;
pub use framing::{read_frame, write_frame, FrameError, FrameStep, MAX_FRAME_BYTES};
pub use freshness::{now_nanos, timestamp_fresh, timestamp_fresh_at, REPLAY_WINDOW_NANOS};
pub use signing::{compute_hmac, verify_hmac};

verus! {

/// One signed request.
#[derive(Debug)]
pub struct Request {
    pub timestamp_nanos: u64,
    /// Hex-encoded HMAC-SHA256, lowercase, 64 characters.
    pub hmac: String,
    pub command: Command,
}

/// Each variant is one operation that the GUI can ask the helper to do.
#[derive(Debug, Clone)]
pub enum Command {
    /// Health check, answered with `Response::Pong`.
    Ping,
    /// Start mihomo with the given config, unless it already runs.
    StartMihomo {
        /// Directory with the config and the geodata, passed as `-d`.
        config_dir: String,
        /// File name inside `config_dir`, passed as `-f <config_dir>/<config_file>`.
        /// An absolute name is refused, and so is one that leads out of the
        /// directory by `..`.
        config_file: String,
        /// Where mihomo's output goes.
        log_file: String,
    },
    /// Stop mihomo; answered with `Response::Stopped` even if nothing ran.
    StopMihomo,
    /// Point the system's DNS at the given servers.
    SetDns { servers: Vec<String> },
    /// Give the system's DNS back to DHCP.
    ClearDns,
    /// Ask for the helper's version and build.
    GetVersion,
    /// Ask the helper to exit.
    Shutdown,
}

/// What the helper answers.
#[derive(Debug)]
pub enum Response {
    Pong,
    Started { pid: u32 },
    Stopped,
    DnsSet,
    DnsCleared,
    Version { version: String, build_sha: String },
    ShuttingDown,
    Error { code: ErrorCode, message: String },
}

/// Why a request was not carried out.
#[derive(Debug, Clone, Copy, PartialEq, Eq, Structural)]
pub enum ErrorCode {
    /// The HMAC did not match: the GUI is stale or has another secret.
    BadHmac,
    /// The timestamp is outside the replay window.
    Replayed,
    /// The body is not a request.
    BadRequest,
    /// `StartMihomo` while mihomo is already running.
    AlreadyRunning,
    /// Kept for commands that need a running mihomo; `StopMihomo` does not.
    NotRunning,
    /// mihomo could not be started; the message says why.
    SpawnFailed,
    /// Anything else; the message has the detail.
    Internal,
}

/// A command, with its texts as character sequences.
pub enum CommandView {
    Ping,
    StartMihomo { config_dir: Seq<char>, config_file: Seq<char>, log_file: Seq<char> },
    StopMihomo,
    SetDns { servers: Seq<Seq<char>> },
    ClearDns,
    GetVersion,
    Shutdown,
}

impl View for Command {
    type V = CommandView;

    open spec fn view(&self) -> CommandView {
        match self {
            Command::Ping => CommandView::Ping,
            Command::StartMihomo { config_dir, config_file, log_file } => CommandView::StartMihomo {
                config_dir: config_dir@,
                config_file: config_file@,
                log_file: log_file@,
            },
            Command::StopMihomo => CommandView::StopMihomo,
            Command::SetDns { servers } => CommandView::SetDns { servers: texts(servers@) },
            Command::ClearDns => CommandView::ClearDns,
            Command::GetVersion => CommandView::GetVersion,
            Command::Shutdown => CommandView::Shutdown,
        }
    }
}

/// A request, with its texts as character sequences.
pub struct RequestView {
    pub timestamp_nanos: u64,
    pub hmac: Seq<char>,
    pub command: CommandView,
}

impl View for Request {
    type V = RequestView;

    open spec fn view(&self) -> RequestView {
        RequestView {
            timestamp_nanos: self.timestamp_nanos,
            hmac: self.hmac@,
            command: self.command@,
        }
    }
}

/// A response, with its texts as character sequences.
pub enum ResponseView {
    Pong,
    Started { pid: u32 },
    Stopped,
    DnsSet,
    DnsCleared,
    Version { version: Seq<char>, build_sha: Seq<char> },
    ShuttingDown,
    Error { code: ErrorCode, message: Seq<char> },
}

impl View for Response {
    type V = ResponseView;

    open spec fn view(&self) -> ResponseView {
        match self {
            Response::Pong => ResponseView::Pong,
            Response::Started { pid } => ResponseView::Started { pid: *pid },
            Response::Stopped => ResponseView::Stopped,
            Response::DnsSet => ResponseView::DnsSet,
            Response::DnsCleared => ResponseView::DnsCleared,
            Response::Version { version, build_sha } => ResponseView::Version {
                version: version@,
                build_sha: build_sha@,
            },
            Response::ShuttingDown => ResponseView::ShuttingDown,
            Response::Error { code, message } => ResponseView::Error {
                code: *code,
                message: message@,
            },
        }
    }
}

} // verus!
