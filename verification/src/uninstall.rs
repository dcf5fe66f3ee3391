//! Uninstaller: runs once with administrator rights and removes the daemon.
//!
//!   1. Ask the helper to shut down, so that it is not killed in mid-work.
//!   2. `launchctl bootout`.
//!   3. Remove the property list.
//!   4. Remove the install directory.
//!   5. Remove the socket, if a crash left it.
//!
//! Every step is best-effort: what fails is noted, the rest is still done, and
//! the notes are printed at the end.
use crate::install::{bootout_line, launchd_target};
use crate::paths::{macos, Platform};
use crate::service::command::{CommandLine, CommandLineView, CommandOutcome, CommandOutcomeView};
use crate::service::supervisor::outcome;
use crate::text::{decimal, decimal_digits, texts};
use vstd::prelude::*;

verus! {

/// What happened on the way.
#[derive(Debug)]
pub enum UninstallEvent {
    /// The uninstallation is to run.
    Begin,
    /// The helper was asked to shut down, whatever came of it.
    ShutdownAsked,
    /// The bootout was run.
    BootedOut(CommandOutcome),
    /// Whether the property list exists.
    PlistChecked(bool),
    /// The property list was removed, or the system's words for why not.
    PlistRemoved(Result<(), String>),
    /// Whether the install directory exists.
    DirChecked(bool),
    /// The install directory was removed, or the system's words for why not.
    DirRemoved(Result<(), String>),
    /// Whether the socket exists.
    SocketChecked(bool),
    /// The removal of the socket was tried.
    SocketRemoved,
}

/// What happened on the way, with its texts as sequences.
pub enum UninstallEventView {
    Begin,
    ShutdownAsked,
    BootedOut(CommandOutcomeView),
    PlistChecked(bool),
    PlistRemoved(Result<(), Seq<char>>),
    DirChecked(bool),
    DirRemoved(Result<(), Seq<char>>),
    SocketChecked(bool),
    SocketRemoved,
}

impl View for UninstallEvent {
    type V = UninstallEventView;

    open spec fn view(&self) -> UninstallEventView {
        match self {
            UninstallEvent::Begin => UninstallEventView::Begin,
            UninstallEvent::ShutdownAsked => UninstallEventView::ShutdownAsked,
            UninstallEvent::BootedOut(result) => UninstallEventView::BootedOut(result@),
            UninstallEvent::PlistChecked(b) => UninstallEventView::PlistChecked(*b),
            UninstallEvent::PlistRemoved(r) => UninstallEventView::PlistRemoved(outcome(*r)),
            UninstallEvent::DirChecked(b) => UninstallEventView::DirChecked(*b),
            UninstallEvent::DirRemoved(r) => UninstallEventView::DirRemoved(outcome(*r)),
            UninstallEvent::SocketChecked(b) => UninstallEventView::SocketChecked(*b),
            UninstallEvent::SocketRemoved => UninstallEventView::SocketRemoved,
        }
    }
}

/// What to do next.
#[derive(Debug)]
pub enum UninstallAction {
    /// Send the helper a `Shutdown`.
    AskShutdown,
    /// Run this.
    Run(CommandLine),
    /// See whether the property list at this path exists.
    CheckPlist(String),
    /// Remove the property list at this path.
    RemovePlist(String),
    /// See whether the install directory at this path exists.
    CheckDir(String),
    /// Remove the install directory at this path, with all in it.
    RemoveDir(String),
    /// See whether the socket at this path exists.
    CheckSocket(String),
    /// Try to remove the socket at this path.
    RemoveSocket(String),
    /// Nothing more.
    Done,
}

/// What to do next, with its texts as sequences.
pub enum UninstallActionView {
    AskShutdown,
    Run(CommandLineView),
    CheckPlist(Seq<char>),
    RemovePlist(Seq<char>),
    CheckDir(Seq<char>),
    RemoveDir(Seq<char>),
    CheckSocket(Seq<char>),
    RemoveSocket(Seq<char>),
    Done,
}

impl View for UninstallAction {
    type V = UninstallActionView;

    open spec fn view(&self) -> UninstallActionView {
        match self {
            UninstallAction::AskShutdown => UninstallActionView::AskShutdown,
            UninstallAction::Run(line) => UninstallActionView::Run(line@),
            UninstallAction::CheckPlist(path) => UninstallActionView::CheckPlist(path@),
            UninstallAction::RemovePlist(path) => UninstallActionView::RemovePlist(path@),
            UninstallAction::CheckDir(path) => UninstallActionView::CheckDir(path@),
            UninstallAction::RemoveDir(path) => UninstallActionView::RemoveDir(path@),
            UninstallAction::CheckSocket(path) => UninstallActionView::CheckSocket(path@),
            UninstallAction::RemoveSocket(path) => UninstallActionView::RemoveSocket(path@),
            UninstallAction::Done => UninstallActionView::Done,
        }
    }
}

/// A step of the uninstallation: the notes so far, what to print now and what to
/// do next.
pub struct UninstallStepView {
    pub notes: Seq<Seq<char>>,
    pub lines: Seq<Seq<char>>,
    pub action: UninstallActionView,
}

/// The notes as warnings.
pub open spec fn warning_lines(notes: Seq<Seq<char>>) -> Seq<Seq<char>> {
    Seq::new(notes.len(), |i: int| "WARN: "@ + notes[i])
}

/// What is printed at the end.
pub open spec fn summary_lines(notes: Seq<Seq<char>>) -> Seq<Seq<char>> {
    if notes.len() == 0 {
        seq!["done"@]
    } else {
        warning_lines(notes).push("done with "@ + decimal_digits(notes.len()) + " warning(s)"@)
    }
}

/// A step that prints nothing.
pub open spec fn quietly(notes: Seq<Seq<char>>, action: UninstallActionView) -> UninstallStepView {
    UninstallStepView { notes, lines: Seq::empty(), action }
}

/// A step after something that was done, which is printed, or failed, which is noted.
pub open spec fn after(
    notes: Seq<Seq<char>>,
    result: Result<(), Seq<char>>,
    done: Seq<char>,
    failed: Seq<char>,
    action: UninstallActionView,
) -> UninstallStepView {
    match result {
        Ok(_) => UninstallStepView { notes, lines: seq![done], action },
        Err(error) => UninstallStepView {
            notes: notes.push(failed + error),
            lines: Seq::empty(),
            action,
        },
    }
}

/// The end of the uninstallation.
pub open spec fn finish(notes: Seq<Seq<char>>) -> UninstallStepView {
    UninstallStepView { notes, lines: summary_lines(notes), action: UninstallActionView::Done }
}

/// The next step of the uninstallation.
pub open spec fn uninstall_step(notes: Seq<Seq<char>>, event: UninstallEventView) -> UninstallStepView {
    let check_plist = UninstallActionView::CheckPlist(macos::LAUNCHD_PLIST@);
    let check_dir = UninstallActionView::CheckDir(macos::HELPER_INSTALL_DIR@);
    let check_socket = UninstallActionView::CheckSocket(macos::SOCKET_PATH@);
    match event {
        UninstallEventView::Begin => quietly(notes, UninstallActionView::AskShutdown),
        UninstallEventView::ShutdownAsked => quietly(
            notes,
            UninstallActionView::Run(
                CommandLineView { program: "launchctl"@, args: seq!["bootout"@, launchd_target()] },
            ),
        ),
        UninstallEventView::BootedOut(CommandOutcomeView::NotStarted { error }) => after(
            notes,
            Err(error),
            ""@,
            "bootout: "@,
            check_plist,
        ),
        UninstallEventView::BootedOut(
            CommandOutcomeView::Finished { success, status, stdout, stderr },
        ) => after(
            notes,
            Ok(()),
            if success {
                "bootout OK"@
            } else {
                "bootout exited "@ + status + " (likely already stopped)"@
            },
            ""@,
            check_plist,
        ),
        UninstallEventView::PlistChecked(exists) => quietly(
            notes,
            if exists {
                UninstallActionView::RemovePlist(macos::LAUNCHD_PLIST@)
            } else {
                check_dir
            },
        ),
        UninstallEventView::PlistRemoved(result) => after(
            notes,
            result,
            "removed plist"@,
            "rm plist: "@,
            check_dir,
        ),
        UninstallEventView::DirChecked(exists) => quietly(
            notes,
            if exists {
                UninstallActionView::RemoveDir(macos::HELPER_INSTALL_DIR@)
            } else {
                check_socket
            },
        ),
        UninstallEventView::DirRemoved(result) => after(
            notes,
            result,
            "removed install dir"@,
            "rm install dir: "@,
            check_socket,
        ),
        UninstallEventView::SocketChecked(exists) => if exists {
            quietly(notes, UninstallActionView::RemoveSocket(macos::SOCKET_PATH@))
        } else {
            finish(notes)
        },
        UninstallEventView::SocketRemoved => finish(notes),
    }
}

/// An uninstallation under way: the notes on what failed.
#[derive(Debug)]
pub struct UninstallTask {
    notes: Vec<String>,
}

impl View for UninstallTask {
    type V = Seq<Seq<char>>;

    closed spec fn view(&self) -> Seq<Seq<char>> {
        texts(self.notes@)
    }
}

/// What to print now and what to do next.
#[derive(Debug)]
pub struct UninstallStep {
    pub lines: Vec<String>,
    pub action: UninstallAction,
}

fn quiet(action: UninstallAction) -> (r: UninstallStep)
    ensures
        texts(r.lines@) == Seq::<Seq<char>>::empty(),
        r.action == action,
{
    let r = UninstallStep { lines: Vec::new(), action };
    assert(texts(r.lines@) =~= Seq::<Seq<char>>::empty());
    r
}

/// Begins an uninstallation. Only macOS has one.
pub fn uninstall(platform: Platform) -> (r: Result<UninstallTask, String>)
    ensures
        r is Ok <==> platform == Platform::MacOs,
        r matches Ok(task) ==> task@ == Seq::<Seq<char>>::empty(),
        r matches Err(message) ==> message@
            == "sc-helper-uninstall: this binary is macOS-only in phase 0. Windows uninstaller comes in phase 3."@,
{
    if platform == Platform::MacOs {
        let task = UninstallTask { notes: Vec::new() };
        assert(texts(task.notes@) =~= Seq::<Seq<char>>::empty());
        Ok(task)
    } else {
        Err(
            "sc-helper-uninstall: this binary is macOS-only in phase 0. Windows uninstaller comes in phase 3."
                .to_owned(),
        )
    }
}

impl UninstallTask {
    fn after_result(
        &mut self,
        result: Result<(), String>,
        done: &str,
        failed: &str,
        action: UninstallAction,
    ) -> (r: UninstallStep)
        ensures
            (UninstallStepView { notes: final(self)@, lines: texts(r.lines@), action: r.action@ })
                == after(old(self)@, outcome(result), done@, failed@, action@),
    {
        match result {
            Ok(_) => {
                let mut lines: Vec<String> = Vec::new();
                lines.push(done.to_owned());
                assert(texts(lines@) =~= seq![done@]);
                UninstallStep { lines, action }
            },
            Err(error) => {
                let ghost before = texts(self.notes@);
                self.notes.push(failed.to_owned().concat(error.as_str()));
                assert(texts(self.notes@) =~= before.push(failed@ + error@));
                quiet(action)
            },
        }
    }

    fn summary(&self) -> (r: Vec<String>)
        ensures
            texts(r@) == summary_lines(self@),
    {
        let mut lines: Vec<String> = Vec::new();
        if self.notes.len() == 0 {
            lines.push("done".to_owned());
            assert(texts(lines@) =~= seq!["done"@]);
            return lines;
        }
        let mut i: usize = 0;
        assert(texts(lines@) =~= warning_lines(self@).take(0));
        while i < self.notes.len()
            invariant
                i <= self.notes.len(),
                texts(lines@) == warning_lines(self@).take(i as int),
            decreases self.notes.len() - i,
        {
            let ghost before = texts(lines@);
            lines.push("WARN: ".to_owned().concat(self.notes[i].as_str()));
            assert(texts(lines@) =~= before.push(warning_lines(self@)[i as int]));
            i = i + 1;
        }
        let ghost before = texts(lines@);
        assert(before =~= warning_lines(self@));
        lines.push(
            "done with ".to_owned().concat(decimal(self.notes.len() as u64).as_str()).concat(
                " warning(s)",
            ),
        );
        assert(texts(lines@) =~= summary_lines(self@));
        lines
    }

    /// Takes the uninstallation one step further.
    pub fn advance(&mut self, event: UninstallEvent) -> (r: UninstallStep)
        ensures
            (UninstallStepView { notes: final(self)@, lines: texts(r.lines@), action: r.action@ })
                == uninstall_step(old(self)@, event@),
    {
        match event {
            UninstallEvent::Begin => quiet(UninstallAction::AskShutdown),
            UninstallEvent::ShutdownAsked => quiet(UninstallAction::Run(bootout_line())),
            UninstallEvent::BootedOut(CommandOutcome::NotStarted { error }) => self.after_result(
                Err(error),
                "",
                "bootout: ",
                UninstallAction::CheckPlist(macos::LAUNCHD_PLIST.to_owned()),
            ),
            UninstallEvent::BootedOut(
                CommandOutcome::Finished { success, status, stdout: _, stderr: _ },
            ) => {
                let line: String = if success {
                    "bootout OK".to_owned()
                } else {
                    "bootout exited ".to_owned().concat(status.as_str()).concat(
                        " (likely already stopped)",
                    )
                };
                self.after_result(
                    Ok(()),
                    line.as_str(),
                    "",
                    UninstallAction::CheckPlist(macos::LAUNCHD_PLIST.to_owned()),
                )
            },
            UninstallEvent::PlistChecked(exists) => {
                if exists {
                    quiet(UninstallAction::RemovePlist(macos::LAUNCHD_PLIST.to_owned()))
                } else {
                    quiet(UninstallAction::CheckDir(macos::HELPER_INSTALL_DIR.to_owned()))
                }
            },
            UninstallEvent::PlistRemoved(result) => self.after_result(
                result,
                "removed plist",
                "rm plist: ",
                UninstallAction::CheckDir(macos::HELPER_INSTALL_DIR.to_owned()),
            ),
            UninstallEvent::DirChecked(exists) => {
                if exists {
                    quiet(UninstallAction::RemoveDir(macos::HELPER_INSTALL_DIR.to_owned()))
                } else {
                    quiet(UninstallAction::CheckSocket(macos::SOCKET_PATH.to_owned()))
                }
            },
            UninstallEvent::DirRemoved(result) => self.after_result(
                result,
                "removed install dir",
                "rm install dir: ",
                UninstallAction::CheckSocket(macos::SOCKET_PATH.to_owned()),
            ),
            UninstallEvent::SocketChecked(exists) => {
                if exists {
                    quiet(UninstallAction::RemoveSocket(macos::SOCKET_PATH.to_owned()))
                } else {
                    UninstallStep { lines: self.summary(), action: UninstallAction::Done }
                }
            },
            UninstallEvent::SocketRemoved => UninstallStep {
                lines: self.summary(),
                action: UninstallAction::Done,
            },
        }
    }
}

// ---------------------------------------------------------------------------
// The whole uninstallation
// ---------------------------------------------------------------------------

/// What the system would answer on the way.
pub struct UninstallWorld {
    pub booted_out: CommandOutcomeView,
    pub plist: bool,
    pub plist_removed: Result<(), Seq<char>>,
    pub dir: bool,
    pub dir_removed: Result<(), Seq<char>>,
    pub socket: bool,
}

/// The event that an action leads to.
pub open spec fn uninstall_answer(
    world: UninstallWorld,
    action: UninstallActionView,
) -> UninstallEventView {
    match action {
        UninstallActionView::AskShutdown => UninstallEventView::ShutdownAsked,
        UninstallActionView::Run(_) => UninstallEventView::BootedOut(world.booted_out),
        UninstallActionView::CheckPlist(_) => UninstallEventView::PlistChecked(world.plist),
        UninstallActionView::RemovePlist(_) => UninstallEventView::PlistRemoved(
            world.plist_removed,
        ),
        UninstallActionView::CheckDir(_) => UninstallEventView::DirChecked(world.dir),
        UninstallActionView::RemoveDir(_) => UninstallEventView::DirRemoved(world.dir_removed),
        UninstallActionView::CheckSocket(_) => UninstallEventView::SocketChecked(world.socket),
        UninstallActionView::RemoveSocket(_) => UninstallEventView::SocketRemoved,
        UninstallActionView::Done => UninstallEventView::Begin,
    }
}

/// The actions from `event` on, for at most `steps` events.
pub open spec fn uninstall_actions(
    notes: Seq<Seq<char>>,
    event: UninstallEventView,
    world: UninstallWorld,
    steps: nat,
) -> Seq<UninstallActionView>
    decreases steps,
{
    if steps == 0 {
        Seq::empty()
    } else {
        let step = uninstall_step(notes, event);
        if step.action is Done {
            seq![step.action]
        } else {
            seq![step.action] + uninstall_actions(
                step.notes,
                uninstall_answer(world, step.action),
                world,
                (steps - 1) as nat,
            )
        }
    }
}

/// Whatever fails on the way, the uninstallation comes to its end, and it tries
/// to remove everything that it finds.
pub proof fn law_uninstall_is_best_effort(notes: Seq<Seq<char>>, world: UninstallWorld)
    ensures
        ({
            let actions = uninstall_actions(notes, UninstallEventView::Begin, world, 9);
            &&& actions.last() == UninstallActionView::Done
            &&& actions[0] == UninstallActionView::AskShutdown
            &&& actions[1] is Run
            &&& world.plist ==> actions.contains(
                UninstallActionView::RemovePlist(macos::LAUNCHD_PLIST@),
            )
            &&& world.dir ==> actions.contains(
                UninstallActionView::RemoveDir(macos::HELPER_INSTALL_DIR@),
            )
            &&& world.socket ==> actions.contains(
                UninstallActionView::RemoveSocket(macos::SOCKET_PATH@),
            )
        }),
{
    reveal_with_fuel(uninstall_actions, 10);
    let actions = uninstall_actions(notes, UninstallEventView::Begin, world, 9);
    let dir_at: int = if world.plist {
        5
    } else {
        4
    };
    let socket_at: int = if world.dir {
        dir_at + 2
    } else {
        dir_at + 1
    };
    if world.plist {
        assert(actions[3] == UninstallActionView::RemovePlist(macos::LAUNCHD_PLIST@));
    }
    if world.dir {
        assert(actions[dir_at] == UninstallActionView::RemoveDir(macos::HELPER_INSTALL_DIR@));
    }
    if world.socket {
        assert(actions[socket_at] == UninstallActionView::RemoveSocket(macos::SOCKET_PATH@));
    }
}

} // verus!
