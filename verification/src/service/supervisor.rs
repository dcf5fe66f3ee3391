//! Mihomo supervisor: which child process the helper owns, and when it starts,
//! signals, waits for and kills it.
//!
//!   * idle, start: spawn, then running
//!   * running, start: refused, nothing is spawned
//!   * running, stop: terminate, wait up to five seconds, kill, then idle
//!   * running, mihomo dies on its own: idle at the next look
//!   * idle, stop: nothing to do
//!
//! mihomo is not restarted when it dies: it would most likely die again for the
//! same reason.
//!
//! The supervisor decides; the caller owns the process handle and acts. It hands
//! an event in, performs the action that comes out, and hands in what happened,
//! until the action says that it is done.
use crate::paths::{
    is_below, join, joined_path, law_inside_is_below, names_inside, resolved, stays_inside,
};
use crate::service::command::{command, CommandLine, CommandLineView};
use vstd::prelude::*;

verus! {

/// How long mihomo has to honour the signal to terminate, in milliseconds.
pub const STOP_GRACE_MILLIS: u64 = 5000;

/// How long to sleep between two looks at a terminating mihomo, in milliseconds.
pub const STOP_POLL_MILLIS: u64 = 100;

/// What a look at the child process found.
#[derive(Debug)]
pub enum ChildStatus {
    /// It has ended.
    Exited,
    /// It is still alive.
    Alive,
    /// The system could not say; its words for why.
    Failed(String),
}

/// What a look at the child process found, with its text as a sequence.
pub enum ChildStatusView {
    Exited,
    Alive,
    Failed(Seq<char>),
}

impl View for ChildStatus {
    type V = ChildStatusView;

    open spec fn view(&self) -> ChildStatusView {
        match self {
            ChildStatus::Exited => ChildStatusView::Exited,
            ChildStatus::Alive => ChildStatusView::Alive,
            ChildStatus::Failed(error) => ChildStatusView::Failed(error@),
        }
    }
}

/// What mihomo is started with.
#[derive(Debug, Clone)]
pub struct MihomoStartConfig {
    pub mihomo_path: String,
    pub config_dir: String,
    pub config_file: String,
    pub log_file: String,
}

/// What mihomo is started with, as character sequences.
pub struct MihomoStartConfigView {
    pub mihomo_path: Seq<char>,
    pub config_dir: Seq<char>,
    pub config_file: Seq<char>,
    pub log_file: Seq<char>,
}

impl View for MihomoStartConfig {
    type V = MihomoStartConfigView;

    open spec fn view(&self) -> MihomoStartConfigView {
        MihomoStartConfigView {
            mihomo_path: self.mihomo_path@,
            config_dir: self.config_dir@,
            config_file: self.config_file@,
            log_file: self.log_file@,
        }
    }
}

/// Why mihomo was not started.
#[derive(Debug)]
pub enum StartError {
    AlreadyRunning,
    BinaryNotFound(String),
    ConfigDirNotFound(String),
    ConfigFileOutside(String),
    ConfigFileNotFound(String),
    LogNotOpened { path: String, error: String },
    LogNotCloned(String),
    NotSpawned(String),
    NoPid,
}

/// Why mihomo was not started, with its texts as sequences.
pub enum StartErrorView {
    AlreadyRunning,
    BinaryNotFound(Seq<char>),
    ConfigDirNotFound(Seq<char>),
    ConfigFileOutside(Seq<char>),
    ConfigFileNotFound(Seq<char>),
    LogNotOpened { path: Seq<char>, error: Seq<char> },
    LogNotCloned(Seq<char>),
    NotSpawned(Seq<char>),
    NoPid,
}

impl View for StartError {
    type V = StartErrorView;

    open spec fn view(&self) -> StartErrorView {
        match self {
            StartError::AlreadyRunning => StartErrorView::AlreadyRunning,
            StartError::BinaryNotFound(path) => StartErrorView::BinaryNotFound(path@),
            StartError::ConfigDirNotFound(path) => StartErrorView::ConfigDirNotFound(path@),
            StartError::ConfigFileOutside(name) => StartErrorView::ConfigFileOutside(name@),
            StartError::ConfigFileNotFound(path) => StartErrorView::ConfigFileNotFound(path@),
            StartError::LogNotOpened { path, error } => StartErrorView::LogNotOpened {
                path: path@,
                error: error@,
            },
            StartError::LogNotCloned(error) => StartErrorView::LogNotCloned(error@),
            StartError::NotSpawned(error) => StartErrorView::NotSpawned(error@),
            StartError::NoPid => StartErrorView::NoPid,
        }
    }
}

/// The text of a start error.
pub open spec fn start_error_text(error: StartErrorView) -> Seq<char> {
    match error {
        StartErrorView::AlreadyRunning => "mihomo already running"@,
        StartErrorView::BinaryNotFound(path) => "mihomo binary not found at "@ + path,
        StartErrorView::ConfigDirNotFound(path) => "config_dir not a directory: "@ + path,
        StartErrorView::ConfigFileOutside(name) => "config file not inside config_dir: "@ + name,
        StartErrorView::ConfigFileNotFound(path) => "config file not found: "@ + path,
        StartErrorView::LogNotOpened { path, error } => "opening log file "@ + path + ": "@ + error,
        StartErrorView::LogNotCloned(error) => "cloning log file handle for stderr: "@ + error,
        StartErrorView::NotSpawned(error) => "spawning mihomo: "@ + error,
        StartErrorView::NoPid => "spawned mihomo has no pid"@,
    }
}

impl StartError {
    /// The text of the error, with the system's words where there are any.
    pub fn message(&self) -> (r: String)
        ensures
            r@ == start_error_text(self@),
    {
        match self {
            StartError::AlreadyRunning => "mihomo already running".to_owned(),
            StartError::BinaryNotFound(path) => "mihomo binary not found at ".to_owned().concat(
                path.as_str(),
            ),
            StartError::ConfigDirNotFound(path) => "config_dir not a directory: ".to_owned().concat(
                path.as_str(),
            ),
            StartError::ConfigFileOutside(name) => {
                "config file not inside config_dir: ".to_owned().concat(name.as_str())
            },
            StartError::ConfigFileNotFound(path) => "config file not found: ".to_owned().concat(
                path.as_str(),
            ),
            StartError::LogNotOpened { path, error } => {
                "opening log file ".to_owned().concat(path.as_str()).concat(": ").concat(
                    error.as_str(),
                )
            },
            StartError::LogNotCloned(error) => {
                "cloning log file handle for stderr: ".to_owned().concat(error.as_str())
            },
            StartError::NotSpawned(error) => "spawning mihomo: ".to_owned().concat(error.as_str()),
            StartError::NoPid => "spawned mihomo has no pid".to_owned(),
        }
    }
}

// ---------------------------------------------------------------------------
// Starting
// ---------------------------------------------------------------------------

/// What happened on the way to a running mihomo.
#[derive(Debug)]
pub enum StartEvent {
    /// A start was asked for.
    Begin,
    /// The child was looked at.
    Child(ChildStatus),
    /// Whether the binary is a file.
    BinaryChecked(bool),
    /// Whether the config directory is a directory.
    ConfigDirChecked(bool),
    /// Whether the config file is a file.
    ConfigFileChecked(bool),
    /// The log file was opened, or the system's words for why not.
    LogOpened(Result<(), String>),
    /// The log handle was cloned, or the system's words for why not.
    LogCloned(Result<(), String>),
    /// mihomo was spawned, with its process id if it has one, or the system's
    /// words for why not.
    Spawned(Result<Option<u32>, String>),
}

/// What happened on the way to a running mihomo, with its texts as sequences.
pub enum StartEventView {
    Begin,
    Child(ChildStatusView),
    BinaryChecked(bool),
    ConfigDirChecked(bool),
    ConfigFileChecked(bool),
    LogOpened(Result<(), Seq<char>>),
    LogCloned(Result<(), Seq<char>>),
    Spawned(Result<Option<u32>, Seq<char>>),
}

/// A result with its error text as a sequence.
pub open spec fn outcome<T>(r: Result<T, String>) -> Result<T, Seq<char>> {
    match r {
        Ok(v) => Ok(v),
        Err(error) => Err(error@),
    }
}

impl View for StartEvent {
    type V = StartEventView;

    open spec fn view(&self) -> StartEventView {
        match self {
            StartEvent::Begin => StartEventView::Begin,
            StartEvent::Child(status) => StartEventView::Child(status@),
            StartEvent::BinaryChecked(b) => StartEventView::BinaryChecked(*b),
            StartEvent::ConfigDirChecked(b) => StartEventView::ConfigDirChecked(*b),
            StartEvent::ConfigFileChecked(b) => StartEventView::ConfigFileChecked(*b),
            StartEvent::LogOpened(r) => StartEventView::LogOpened(outcome(*r)),
            StartEvent::LogCloned(r) => StartEventView::LogCloned(outcome(*r)),
            StartEvent::Spawned(r) => StartEventView::Spawned(outcome(*r)),
        }
    }
}

/// What to do next on the way to a running mihomo.
#[derive(Debug)]
pub enum StartAction {
    /// Look at the child.
    ProbeChild,
    /// See whether this is a file.
    CheckBinary(String),
    /// See whether this is a directory.
    CheckConfigDir(String),
    /// See whether this is a file.
    CheckConfigFile(String),
    /// Open this file for appending, and create it if it is missing.
    OpenLog(String),
    /// Clone the handle of the log file, one for each output stream.
    CloneLog,
    /// Spawn this, with no input and both outputs to the log file.
    Spawn(CommandLine),
    /// Nothing more: mihomo runs under this process id, or why it does not.
    Done(Result<u32, StartError>),
}

/// What to do next on the way to a running mihomo, with its texts as sequences.
pub enum StartActionView {
    ProbeChild,
    CheckBinary(Seq<char>),
    CheckConfigDir(Seq<char>),
    CheckConfigFile(Seq<char>),
    OpenLog(Seq<char>),
    CloneLog,
    Spawn(CommandLineView),
    Done(Result<u32, StartErrorView>),
}

impl View for StartAction {
    type V = StartActionView;

    open spec fn view(&self) -> StartActionView {
        match self {
            StartAction::ProbeChild => StartActionView::ProbeChild,
            StartAction::CheckBinary(path) => StartActionView::CheckBinary(path@),
            StartAction::CheckConfigDir(path) => StartActionView::CheckConfigDir(path@),
            StartAction::CheckConfigFile(path) => StartActionView::CheckConfigFile(path@),
            StartAction::OpenLog(path) => StartActionView::OpenLog(path@),
            StartAction::CloneLog => StartActionView::CloneLog,
            StartAction::Spawn(line) => StartActionView::Spawn(line@),
            StartAction::Done(Ok(pid)) => StartActionView::Done(Ok(*pid)),
            StartAction::Done(Err(error)) => StartActionView::Done(Err(error@)),
        }
    }
}

/// The path of the config file.
pub open spec fn config_path(cfg: MihomoStartConfigView) -> Seq<char> {
    joined_path(cfg.config_dir, cfg.config_file)
}

/// How mihomo is invoked: `-d <config dir> -f <config file>`.
pub open spec fn mihomo_invocation(cfg: MihomoStartConfigView) -> CommandLineView {
    CommandLineView {
        program: cfg.mihomo_path,
        args: seq!["-d"@, cfg.config_dir, "-f"@, config_path(cfg)],
    }
}

/// Whether the supervisor has a child that a look found alive.
pub open spec fn runs(child: Option<u32>, status: ChildStatusView) -> bool {
    child is Some && status is Alive
}

/// The child that is still held after a look at it.
pub open spec fn held_after(child: Option<u32>, status: ChildStatusView) -> Option<u32> {
    if runs(child, status) {
        child
    } else {
        None
    }
}

/// The next child and action on the way to a running mihomo. Each check is made
/// only after the one before it passed. A config file outside the config
/// directory is refused, whatever was checked before.
pub open spec fn start_step(
    child: Option<u32>,
    cfg: MihomoStartConfigView,
    event: StartEventView,
) -> (Option<u32>, StartActionView) {
    match event {
        StartEventView::Begin => if child is Some {
            (child, StartActionView::ProbeChild)
        } else {
            (child, StartActionView::CheckBinary(cfg.mihomo_path))
        },
        StartEventView::Child(status) => (
            held_after(child, status),
            if runs(child, status) {
                StartActionView::Done(Err(StartErrorView::AlreadyRunning))
            } else {
                StartActionView::CheckBinary(cfg.mihomo_path)
            },
        ),
        StartEventView::BinaryChecked(found) => (
            child,
            if found {
                StartActionView::CheckConfigDir(cfg.config_dir)
            } else {
                StartActionView::Done(Err(StartErrorView::BinaryNotFound(cfg.mihomo_path)))
            },
        ),
        StartEventView::ConfigDirChecked(found) => (
            child,
            if !found {
                StartActionView::Done(Err(StartErrorView::ConfigDirNotFound(cfg.config_dir)))
            } else if !stays_inside(cfg.config_dir, cfg.config_file) {
                StartActionView::Done(Err(StartErrorView::ConfigFileOutside(cfg.config_file)))
            } else {
                StartActionView::CheckConfigFile(config_path(cfg))
            },
        ),
        StartEventView::ConfigFileChecked(found) => (
            child,
            if found {
                StartActionView::OpenLog(cfg.log_file)
            } else {
                StartActionView::Done(Err(StartErrorView::ConfigFileNotFound(config_path(cfg))))
            },
        ),
        StartEventView::LogOpened(Ok(_)) => (child, StartActionView::CloneLog),
        StartEventView::LogOpened(Err(error)) => (
            child,
            StartActionView::Done(
                Err(StartErrorView::LogNotOpened { path: cfg.log_file, error }),
            ),
        ),
        StartEventView::LogCloned(Ok(_)) => (
            child,
            if !stays_inside(cfg.config_dir, cfg.config_file) {
                StartActionView::Done(Err(StartErrorView::ConfigFileOutside(cfg.config_file)))
            } else {
                StartActionView::Spawn(mihomo_invocation(cfg))
            },
        ),
        StartEventView::LogCloned(Err(error)) => (
            child,
            StartActionView::Done(Err(StartErrorView::LogNotCloned(error))),
        ),
        StartEventView::Spawned(Ok(Some(pid))) => (Some(pid), StartActionView::Done(Ok(pid))),
        StartEventView::Spawned(Ok(None)) => (
            child,
            StartActionView::Done(Err(StartErrorView::NoPid)),
        ),
        StartEventView::Spawned(Err(error)) => (
            child,
            StartActionView::Done(Err(StartErrorView::NotSpawned(error))),
        ),
    }
}

// ---------------------------------------------------------------------------
// Stopping
// ---------------------------------------------------------------------------

/// What happened on the way to a stopped mihomo.
#[derive(Debug)]
pub enum StopEvent {
    /// A stop was asked for.
    Begin,
    /// The child was looked at, this many milliseconds after it was signalled.
    Polled { status: ChildStatus, waited_millis: u64 },
    /// The child was killed and reaped.
    Killed,
}

/// What happened on the way to a stopped mihomo, with its texts as sequences.
pub enum StopEventView {
    Begin,
    Polled { status: ChildStatusView, waited_millis: u64 },
    Killed,
}

impl View for StopEvent {
    type V = StopEventView;

    open spec fn view(&self) -> StopEventView {
        match self {
            StopEvent::Begin => StopEventView::Begin,
            StopEvent::Polled { status, waited_millis } => StopEventView::Polled {
                status: status@,
                waited_millis: *waited_millis,
            },
            StopEvent::Killed => StopEventView::Killed,
        }
    }
}

/// What to do next on the way to a stopped mihomo.
#[derive(Debug)]
pub enum StopAction {
    /// Send the child this process id belongs to the signal to terminate, then
    /// look at it.
    Terminate(u32),
    /// Sleep for this many milliseconds, then look at the child again.
    Sleep(u64),
    /// Kill the child and reap it.
    Kill,
    /// Nothing more: mihomo has stopped, or the system's words for why it
    /// cannot be told.
    Done(Result<(), String>),
}

/// What to do next on the way to a stopped mihomo, with its texts as sequences.
pub enum StopActionView {
    Terminate(u32),
    Sleep(u64),
    Kill,
    Done(Result<(), Seq<char>>),
}

impl View for StopAction {
    type V = StopActionView;

    open spec fn view(&self) -> StopActionView {
        match self {
            StopAction::Terminate(pid) => StopActionView::Terminate(*pid),
            StopAction::Sleep(millis) => StopActionView::Sleep(*millis),
            StopAction::Kill => StopActionView::Kill,
            StopAction::Done(r) => StopActionView::Done(outcome(*r)),
        }
    }
}

/// The next child and action on the way to a stopped mihomo. The child is given
/// up at once, whatever comes after.
pub open spec fn stop_step(child: Option<u32>, event: StopEventView) -> (
    Option<u32>,
    StopActionView,
) {
    match event {
        StopEventView::Begin => match child {
            Some(pid) => (None, StopActionView::Terminate(pid)),
            None => (None, StopActionView::Done(Ok(()))),
        },
        StopEventView::Polled { status: ChildStatusView::Exited, waited_millis } => (
            child,
            StopActionView::Done(Ok(())),
        ),
        StopEventView::Polled { status: ChildStatusView::Alive, waited_millis } => (
            child,
            if waited_millis >= STOP_GRACE_MILLIS {
                StopActionView::Kill
            } else {
                StopActionView::Sleep(STOP_POLL_MILLIS)
            },
        ),
        StopEventView::Polled { status: ChildStatusView::Failed(error), waited_millis } => (
            child,
            StopActionView::Done(Err(error)),
        ),
        StopEventView::Killed => (child, StopActionView::Done(Ok(()))),
    }
}

// ---------------------------------------------------------------------------
// The supervisor
// ---------------------------------------------------------------------------

/// Owns at most one mihomo. The caller keeps the process handle; the supervisor
/// keeps the process id for as long as the handle is to be kept.
#[derive(Debug)]
pub struct MihomoSupervisor {
    child: Option<u32>,
}

impl View for MihomoSupervisor {
    type V = Option<u32>;

    closed spec fn view(&self) -> Option<u32> {
        self.child
    }
}

impl MihomoSupervisor {
    /// An idle supervisor.
    pub fn new() -> (r: Self)
        ensures
            r@ == None::<u32>,
    {
        MihomoSupervisor { child: None }
    }

    /// Whether there is a child to look at.
    pub fn has_child(&self) -> (r: bool)
        ensures
            r == (self@ is Some),
    {
        self.child.is_some()
    }

    /// Whether mihomo runs, given what a look at the child found: there is a
    /// child and it is alive. A child that is not is given up. Without a child
    /// `status` is ignored.
    pub fn is_running(&mut self, status: &ChildStatus) -> (r: bool)
        ensures
            r == runs(old(self)@, status@),
            final(self)@ == held_after(old(self)@, status@),
    {
        if self.child.is_none() {
            return false;
        }
        match status {
            ChildStatus::Alive => true,
            ChildStatus::Exited => {
                self.child = None;
                false
            },
            ChildStatus::Failed(_) => {
                self.child = None;
                false
            },
        }
    }

    /// Takes one step towards a running mihomo.
    pub fn start(&mut self, cfg: &MihomoStartConfig, event: StartEvent) -> (r: StartAction)
        ensures
            (final(self)@, r@) == start_step(old(self)@, cfg@, event@),
    {
        match event {
            StartEvent::Begin => {
                if self.child.is_some() {
                    StartAction::ProbeChild
                } else {
                    StartAction::CheckBinary(cfg.mihomo_path.clone())
                }
            },
            StartEvent::Child(status) => {
                if self.is_running(&status) {
                    StartAction::Done(Err(StartError::AlreadyRunning))
                } else {
                    StartAction::CheckBinary(cfg.mihomo_path.clone())
                }
            },
            StartEvent::BinaryChecked(found) => {
                if found {
                    StartAction::CheckConfigDir(cfg.config_dir.clone())
                } else {
                    StartAction::Done(Err(StartError::BinaryNotFound(cfg.mihomo_path.clone())))
                }
            },
            StartEvent::ConfigDirChecked(found) => {
                if !found {
                    StartAction::Done(Err(StartError::ConfigDirNotFound(cfg.config_dir.clone())))
                } else if !names_inside(cfg.config_dir.as_str(), cfg.config_file.as_str()) {
                    StartAction::Done(Err(StartError::ConfigFileOutside(cfg.config_file.clone())))
                } else {
                    StartAction::CheckConfigFile(
                        join(cfg.config_dir.as_str(), cfg.config_file.as_str()),
                    )
                }
            },
            StartEvent::ConfigFileChecked(found) => {
                if found {
                    StartAction::OpenLog(cfg.log_file.clone())
                } else {
                    StartAction::Done(
                        Err(
                            StartError::ConfigFileNotFound(
                                join(cfg.config_dir.as_str(), cfg.config_file.as_str()),
                            ),
                        ),
                    )
                }
            },
            StartEvent::LogOpened(Ok(_)) => StartAction::CloneLog,
            StartEvent::LogOpened(Err(error)) => StartAction::Done(
                Err(StartError::LogNotOpened { path: cfg.log_file.clone(), error }),
            ),
            StartEvent::LogCloned(Ok(_)) => {
                if !names_inside(cfg.config_dir.as_str(), cfg.config_file.as_str()) {
                    return StartAction::Done(
                        Err(StartError::ConfigFileOutside(cfg.config_file.clone())),
                    );
                }
                let config_full: String = join(cfg.config_dir.as_str(), cfg.config_file.as_str());
                let line: CommandLine = command(cfg.mihomo_path.as_str()).arg("-d").arg(
                    cfg.config_dir.as_str(),
                ).arg("-f").arg(config_full.as_str());
                assert(line@.args =~= mihomo_invocation(cfg@).args);
                StartAction::Spawn(line)
            },
            StartEvent::LogCloned(Err(error)) => StartAction::Done(
                Err(StartError::LogNotCloned(error)),
            ),
            StartEvent::Spawned(Ok(Some(pid))) => {
                self.child = Some(pid);
                StartAction::Done(Ok(pid))
            },
            StartEvent::Spawned(Ok(None)) => StartAction::Done(Err(StartError::NoPid)),
            StartEvent::Spawned(Err(error)) => StartAction::Done(Err(StartError::NotSpawned(error))),
        }
    }

    /// Takes one step towards a stopped mihomo.
    pub fn stop(&mut self, event: StopEvent) -> (r: StopAction)
        ensures
            (final(self)@, r@) == stop_step(old(self)@, event@),
    {
        match event {
            StopEvent::Begin => match self.child.take() {
                Some(pid) => StopAction::Terminate(pid),
                None => StopAction::Done(Ok(())),
            },
            StopEvent::Polled { status, waited_millis } => match status {
                ChildStatus::Exited => StopAction::Done(Ok(())),
                ChildStatus::Alive => {
                    if waited_millis >= STOP_GRACE_MILLIS {
                        StopAction::Kill
                    } else {
                        StopAction::Sleep(STOP_POLL_MILLIS)
                    }
                },
                ChildStatus::Failed(error) => StopAction::Done(Err(error)),
            },
            StopEvent::Killed => StopAction::Done(Ok(())),
        }
    }
}

// ---------------------------------------------------------------------------
// Whole starts and stops
// ---------------------------------------------------------------------------

/// What the system would answer to each question on the way to a running mihomo.
pub struct StartWorld {
    pub status: ChildStatusView,
    pub binary: bool,
    pub config_dir: bool,
    pub config_file: bool,
    pub log_opened: Result<(), Seq<char>>,
    pub log_cloned: Result<(), Seq<char>>,
    pub spawned: Result<Option<u32>, Seq<char>>,
}

/// The event that an action leads to.
pub open spec fn start_answer(world: StartWorld, action: StartActionView) -> StartEventView {
    match action {
        StartActionView::ProbeChild => StartEventView::Child(world.status),
        StartActionView::CheckBinary(_) => StartEventView::BinaryChecked(world.binary),
        StartActionView::CheckConfigDir(_) => StartEventView::ConfigDirChecked(world.config_dir),
        StartActionView::CheckConfigFile(_) => StartEventView::ConfigFileChecked(world.config_file),
        StartActionView::OpenLog(_) => StartEventView::LogOpened(world.log_opened),
        StartActionView::CloneLog => StartEventView::LogCloned(world.log_cloned),
        StartActionView::Spawn(_) => StartEventView::Spawned(world.spawned),
        StartActionView::Done(_) => StartEventView::Begin,
    }
}

/// How a start went: the child held at the end, the result once there is one,
/// and what was spawned.
pub struct StartRun {
    pub child: Option<u32>,
    pub result: Option<Result<u32, StartErrorView>>,
    pub spawned: Seq<CommandLineView>,
}

/// A start from `event` on, for at most `steps` events.
pub open spec fn start_run(
    child: Option<u32>,
    cfg: MihomoStartConfigView,
    event: StartEventView,
    world: StartWorld,
    steps: nat,
) -> StartRun
    decreases steps,
{
    if steps == 0 {
        StartRun { child, result: None, spawned: Seq::empty() }
    } else {
        let (next, action) = start_step(child, cfg, event);
        match action {
            StartActionView::Done(result) => StartRun {
                child: next,
                result: Some(result),
                spawned: Seq::empty(),
            },
            StartActionView::Spawn(line) => {
                let rest = start_run(
                    next,
                    cfg,
                    start_answer(world, action),
                    world,
                    (steps - 1) as nat,
                );
                StartRun { spawned: seq![line] + rest.spawned, ..rest }
            },
            _ => start_run(next, cfg, start_answer(world, action), world, (steps - 1) as nat),
        }
    }
}

/// The result of a start that finds no mihomo running, if it ends before the
/// spawn: the first check that fails.
pub open spec fn first_obstacle(cfg: MihomoStartConfigView, world: StartWorld) -> Option<
    StartErrorView,
> {
    if !world.binary {
        Some(StartErrorView::BinaryNotFound(cfg.mihomo_path))
    } else if !world.config_dir {
        Some(StartErrorView::ConfigDirNotFound(cfg.config_dir))
    } else if !stays_inside(cfg.config_dir, cfg.config_file) {
        Some(StartErrorView::ConfigFileOutside(cfg.config_file))
    } else if !world.config_file {
        Some(StartErrorView::ConfigFileNotFound(config_path(cfg)))
    } else if world.log_opened is Err {
        Some(StartErrorView::LogNotOpened { path: cfg.log_file, error: world.log_opened->Err_0 })
    } else if world.log_cloned is Err {
        Some(StartErrorView::LogNotCloned(world.log_cloned->Err_0))
    } else {
        None
    }
}

/// A start always comes to an end, and how it ends is decided by whether mihomo
/// runs and, if not, by the first check that fails. A running mihomo stays the
/// only one: nothing is spawned. Otherwise the one thing that can be spawned is
/// the configured binary with the configured files, and the child held
/// afterwards is the one that was spawned. Nothing is spawned for a config file
/// outside the config directory.
pub proof fn law_start(child: Option<u32>, cfg: MihomoStartConfigView, world: StartWorld)
    ensures
        ({
            let run = start_run(child, cfg, StartEventView::Begin, world, 8);
            &&& run.spawned.len() > 0 ==> stays_inside(cfg.config_dir, cfg.config_file)
            &&& if runs(child, world.status) {
                &&& run.child == child
                &&& run.result == Some(Err::<u32, _>(StartErrorView::AlreadyRunning))
                &&& run.spawned == Seq::<CommandLineView>::empty()
            } else if first_obstacle(cfg, world) is Some {
                &&& run.child == None::<u32>
                &&& run.result == Some(Err::<u32, _>(first_obstacle(cfg, world)->0))
                &&& run.spawned == Seq::<CommandLineView>::empty()
            } else {
                &&& run.spawned == seq![mihomo_invocation(cfg)]
                &&& match world.spawned {
                    Ok(Some(pid)) => run.child == Some(pid) && run.result == Some(
                        Ok::<_, StartErrorView>(pid),
                    ),
                    Ok(None) => run.child == None::<u32> && run.result == Some(
                        Err::<u32, _>(StartErrorView::NoPid),
                    ),
                    Err(error) => run.child == None::<u32> && run.result == Some(
                        Err::<u32, _>(StartErrorView::NotSpawned(error)),
                    ),
                }
            }
        }),
{
    reveal_with_fuel(start_run, 9);
}

/// Whatever happened before, mihomo is spawned only on a config file inside its
/// config directory: what follows `-f` is the directory, a separator unless the
/// directory is empty or ends in one, and the name of the file, and that names a
/// place in the directory.
pub proof fn law_config_stays_inside(
    child: Option<u32>,
    cfg: MihomoStartConfigView,
    event: StartEventView,
)
    ensures
        start_step(child, cfg, event).1 matches StartActionView::Spawn(line) ==> {
            &&& stays_inside(cfg.config_dir, cfg.config_file)
            &&& line == mihomo_invocation(cfg)
            &&& line.args.len() == 4
            &&& line.args[2] == "-f"@
            &&& line.args[3] == if cfg.config_dir.len() == 0 || cfg.config_dir.last() == '/' {
                cfg.config_dir + cfg.config_file
            } else {
                cfg.config_dir + seq!['/'] + cfg.config_file
            }
            &&& is_below(resolved(cfg.config_dir), resolved(line.args[3]))
        },
{
    if stays_inside(cfg.config_dir, cfg.config_file) {
        law_inside_is_below(cfg.config_dir, cfg.config_file);
    }
}

/// What a look at a terminating mihomo found, and when.
pub struct Poll {
    pub status: ChildStatusView,
    pub waited_millis: u64,
}

/// Whether a look leaves mihomo more time.
pub open spec fn is_patient(poll: Poll) -> bool {
    poll.status is Alive && poll.waited_millis < STOP_GRACE_MILLIS
}

/// How a stop went: the child held at the end, the result once there is one,
/// which process was signalled to terminate and whether it was killed.
pub struct StopRun {
    pub child: Option<u32>,
    pub result: Option<Result<(), Seq<char>>>,
    pub terminated: Option<u32>,
    pub killed: bool,
}

/// A stop from `event` on, where the looks find `polls` one after the other.
pub open spec fn stop_run(child: Option<u32>, event: StopEventView, polls: Seq<Poll>) -> StopRun
    decreases polls.len(),
{
    let (next, action) = stop_step(child, event);
    match action {
        StopActionView::Done(result) => StopRun {
            child: next,
            result: Some(result),
            terminated: None,
            killed: false,
        },
        StopActionView::Kill => {
            let (last, end) = stop_step(next, StopEventView::Killed);
            StopRun {
                child: last,
                result: if end is Done {
                    Some(end->Done_0)
                } else {
                    None
                },
                terminated: None,
                killed: true,
            }
        },
        _ => {
            let signalled = if action is Terminate {
                Some(action->Terminate_0)
            } else {
                None
            };
            if polls.len() == 0 {
                StopRun { child: next, result: None, terminated: signalled, killed: false }
            } else {
                let rest = stop_run(
                    next,
                    StopEventView::Polled {
                        status: polls[0].status,
                        waited_millis: polls[0].waited_millis,
                    },
                    polls.drop_first(),
                );
                StopRun { terminated: signalled, ..rest }
            }
        },
    }
}

/// What the first look that is not patient leads to.
pub open spec fn stop_verdict(poll: Poll) -> StopRun {
    StopRun {
        child: None,
        result: Some(
            match poll.status {
                ChildStatusView::Failed(error) => Err(error),
                _ => Ok(()),
            },
        ),
        terminated: None,
        killed: poll.status is Alive,
    }
}

proof fn lemma_stop_from_poll(polls: Seq<Poll>, k: int)
    requires
        0 <= k < polls.len(),
        forall|i: int| 0 <= i < k ==> is_patient(#[trigger] polls[i]),
        !is_patient(polls[k]),
    ensures
        stop_run(
            None,
            StopEventView::Polled {
                status: polls[0].status,
                waited_millis: polls[0].waited_millis,
            },
            polls.drop_first(),
        ) == stop_verdict(polls[k]),
    decreases k,
{
    if k > 0 {
        assert(is_patient(polls[0]));
        let rest = polls.drop_first();
        assert(rest[k - 1] == polls[k]);
        assert forall|i: int| 0 <= i < k - 1 implies is_patient(#[trigger] rest[i]) by {
            assert(rest[i] == polls[i + 1]);
        }
        lemma_stop_from_poll(rest, k - 1);
    }
}

/// A stop signals the child once, gives it its grace and ends at the first look
/// that finds it gone, cannot tell, or comes after the grace; only then, and only
/// if it is still alive, is it killed. The child is given up in every case.
pub proof fn law_stop(pid: u32, polls: Seq<Poll>, k: int)
    requires
        0 <= k < polls.len(),
        forall|i: int| 0 <= i < k ==> is_patient(#[trigger] polls[i]),
        !is_patient(polls[k]),
    ensures
        stop_run(Some(pid), StopEventView::Begin, polls) == (StopRun {
            terminated: Some(pid),
            ..stop_verdict(polls[k])
        }),
{
    lemma_stop_from_poll(polls, k);
}

/// Stopping is idempotent: after a stop has begun there is no child, and stopping
/// without a child is done at once and signals nothing.
pub proof fn law_stop_is_idempotent(child: Option<u32>, polls: Seq<Poll>)
    ensures
        stop_step(child, StopEventView::Begin).0 == None::<u32>,
        stop_run(stop_step(child, StopEventView::Begin).0, StopEventView::Begin, polls) == (
        StopRun { child: None, result: Some(Ok(())), terminated: None, killed: false }),
{
}

} // verus!
