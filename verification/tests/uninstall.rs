use sc_helper::paths::Platform;
use sc_helper::service::command::CommandOutcome;
use sc_helper::uninstall::{uninstall, UninstallAction, UninstallEvent, UninstallStep};

fn finished(success: bool, status: &str) -> CommandOutcome {
    CommandOutcome::Finished {
        success,
        status: status.into(),
        stdout: vec![],
        stderr: vec![],
    }
}

fn quiet(step: UninstallStep) -> UninstallAction {
    assert!(step.lines.is_empty());
    step.action
}

const PLIST: &str = "/Library/LaunchDaemons/com.scloud.helper.plist";
const DIR: &str = "/Library/PrivilegedHelperTools/com.scloud.helper";
const SOCKET: &str = "/var/run/sc-helper.sock";

#[test]
fn uninstall_removes_everything() {
    let mut task = uninstall(Platform::MacOs).unwrap();
    assert!(matches!(quiet(task.advance(UninstallEvent::Begin)), UninstallAction::AskShutdown));
    match quiet(task.advance(UninstallEvent::ShutdownAsked)) {
        UninstallAction::Run(line) => {
            assert_eq!(line.program, "launchctl");
            assert_eq!(line.args, vec!["bootout", "system/com.scloud.helper"]);
        }
        other => panic!("{:?}", other),
    }
    let step = task.advance(UninstallEvent::BootedOut(finished(true, "exit status: 0")));
    assert_eq!(step.lines, vec!["bootout OK"]);
    assert!(matches!(step.action, UninstallAction::CheckPlist(p) if p == PLIST));
    assert!(matches!(quiet(task.advance(UninstallEvent::PlistChecked(true))),
        UninstallAction::RemovePlist(p) if p == PLIST));
    let step = task.advance(UninstallEvent::PlistRemoved(Ok(())));
    assert_eq!(step.lines, vec!["removed plist"]);
    assert!(matches!(step.action, UninstallAction::CheckDir(p) if p == DIR));
    assert!(matches!(quiet(task.advance(UninstallEvent::DirChecked(true))),
        UninstallAction::RemoveDir(p) if p == DIR));
    let step = task.advance(UninstallEvent::DirRemoved(Ok(())));
    assert_eq!(step.lines, vec!["removed install dir"]);
    assert!(matches!(step.action, UninstallAction::CheckSocket(p) if p == SOCKET));
    assert!(matches!(quiet(task.advance(UninstallEvent::SocketChecked(true))),
        UninstallAction::RemoveSocket(p) if p == SOCKET));
    let step = task.advance(UninstallEvent::SocketRemoved);
    assert_eq!(step.lines, vec!["done"]);
    assert!(matches!(step.action, UninstallAction::Done));
}

#[test]
fn uninstall_goes_on_past_failures() {
    let mut task = uninstall(Platform::MacOs).unwrap();
    let failed = CommandOutcome::NotStarted { error: "ENOENT".into() };
    assert!(matches!(quiet(task.advance(UninstallEvent::BootedOut(failed))),
        UninstallAction::CheckPlist(_)));
    assert!(matches!(quiet(task.advance(UninstallEvent::PlistRemoved(Err("EPERM".into())))),
        UninstallAction::CheckDir(_)));
    assert!(matches!(quiet(task.advance(UninstallEvent::DirRemoved(Err("EBUSY".into())))),
        UninstallAction::CheckSocket(_)));
    let step = task.advance(UninstallEvent::SocketChecked(false));
    assert_eq!(
        step.lines,
        vec![
            "WARN: bootout: ENOENT",
            "WARN: rm plist: EPERM",
            "WARN: rm install dir: EBUSY",
            "done with 3 warning(s)",
        ]
    );
    assert!(matches!(step.action, UninstallAction::Done));
}

#[test]
fn uninstall_skips_what_is_not_there() {
    let mut task = uninstall(Platform::MacOs).unwrap();
    let step = task.advance(UninstallEvent::BootedOut(finished(false, "exit status: 3")));
    assert_eq!(step.lines, vec!["bootout exited exit status: 3 (likely already stopped)"]);
    assert!(matches!(quiet(task.advance(UninstallEvent::PlistChecked(false))),
        UninstallAction::CheckDir(_)));
    assert!(matches!(quiet(task.advance(UninstallEvent::DirChecked(false))),
        UninstallAction::CheckSocket(_)));
    let step = task.advance(UninstallEvent::SocketChecked(false));
    assert_eq!(step.lines, vec!["done"]);
}

#[test]
fn uninstall_is_for_macos_only() {
    for platform in [Platform::Linux, Platform::Windows] {
        assert_eq!(
            uninstall(platform).unwrap_err(),
            "sc-helper-uninstall: this binary is macOS-only in phase 0. \
             Windows uninstaller comes in phase 3."
        );
    }
}
