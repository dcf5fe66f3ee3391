use sc_helper::service::supervisor::{
    ChildStatus, MihomoStartConfig, MihomoSupervisor, StartAction, StartError, StartEvent,
    StopAction, StopEvent, STOP_GRACE_MILLIS, STOP_POLL_MILLIS,
};

fn config() -> MihomoStartConfig {
    MihomoStartConfig {
        mihomo_path: "/opt/sc-mihomo".into(),
        config_dir: "/etc/mihomo".into(),
        config_file: "config.yaml".into(),
        log_file: "/tmp/mihomo.log".into(),
    }
}

fn running(pid: u32) -> MihomoSupervisor {
    let mut supervisor = MihomoSupervisor::new();
    let action = supervisor.start(&config(), StartEvent::Spawned(Ok(Some(pid))));
    assert!(matches!(action, StartAction::Done(Ok(p)) if p == pid));
    supervisor
}

fn start_failure(event: StartEvent) -> String {
    let mut supervisor = MihomoSupervisor::new();
    match supervisor.start(&config(), event) {
        StartAction::Done(Err(error)) => {
            assert!(!supervisor.has_child());
            error.message()
        }
        other => panic!("{:?}", other),
    }
}

#[test]
fn start_from_idle_checks_then_spawns() {
    let cfg = config();
    let mut s = MihomoSupervisor::new();
    assert!(matches!(s.start(&cfg, StartEvent::Begin),
        StartAction::CheckBinary(p) if p == "/opt/sc-mihomo"));
    assert!(matches!(s.start(&cfg, StartEvent::BinaryChecked(true)),
        StartAction::CheckConfigDir(p) if p == "/etc/mihomo"));
    assert!(matches!(s.start(&cfg, StartEvent::ConfigDirChecked(true)),
        StartAction::CheckConfigFile(p) if p == "/etc/mihomo/config.yaml"));
    assert!(matches!(s.start(&cfg, StartEvent::ConfigFileChecked(true)),
        StartAction::OpenLog(p) if p == "/tmp/mihomo.log"));
    assert!(matches!(s.start(&cfg, StartEvent::LogOpened(Ok(()))), StartAction::CloneLog));
    match s.start(&cfg, StartEvent::LogCloned(Ok(()))) {
        StartAction::Spawn(line) => {
            assert_eq!(line.program, "/opt/sc-mihomo");
            assert_eq!(
                line.args,
                vec!["-d", "/etc/mihomo", "-f", "/etc/mihomo/config.yaml"]
            );
        }
        other => panic!("{:?}", other),
    }
    assert!(!s.has_child());
    assert!(matches!(s.start(&cfg, StartEvent::Spawned(Ok(Some(42)))), StartAction::Done(Ok(42))));
    assert!(s.has_child());
}

#[test]
fn start_while_running_is_refused() {
    let mut s = running(7);
    assert!(matches!(s.start(&config(), StartEvent::Begin), StartAction::ProbeChild));
    match s.start(&config(), StartEvent::Child(ChildStatus::Alive)) {
        StartAction::Done(Err(error)) => {
            assert!(matches!(error, StartError::AlreadyRunning));
            assert_eq!(error.message(), "mihomo already running");
        }
        other => panic!("{:?}", other),
    }
    assert!(s.has_child());
}

#[test]
fn start_after_death_goes_on() {
    for status in [ChildStatus::Exited, ChildStatus::Failed("ECHILD".into())] {
        let mut s = running(7);
        assert!(matches!(s.start(&config(), StartEvent::Begin), StartAction::ProbeChild));
        assert!(matches!(s.start(&config(), StartEvent::Child(status)),
            StartAction::CheckBinary(_)));
        assert!(!s.has_child());
    }
}

#[test]
fn start_errors_say_what_is_wrong() {
    assert_eq!(
        start_failure(StartEvent::BinaryChecked(false)),
        "mihomo binary not found at /opt/sc-mihomo"
    );
    assert_eq!(
        start_failure(StartEvent::ConfigDirChecked(false)),
        "config_dir not a directory: /etc/mihomo"
    );
    assert_eq!(
        start_failure(StartEvent::ConfigFileChecked(false)),
        "config file not found: /etc/mihomo/config.yaml"
    );
    assert_eq!(
        start_failure(StartEvent::LogOpened(Err("denied".into()))),
        "opening log file /tmp/mihomo.log: denied"
    );
    assert_eq!(
        start_failure(StartEvent::LogCloned(Err("EMFILE".into()))),
        "cloning log file handle for stderr: EMFILE"
    );
    assert_eq!(
        start_failure(StartEvent::Spawned(Err("ENOEXEC".into()))),
        "spawning mihomo: ENOEXEC"
    );
    assert_eq!(start_failure(StartEvent::Spawned(Ok(None))), "spawned mihomo has no pid");
}

#[test]
fn config_outside_its_directory_is_never_run() {
    for name in ["/etc/other.yaml", "..", "../../etc/other.yaml", "a/../../b"] {
        let cfg = MihomoStartConfig { config_file: name.into(), ..config() };
        for event in [StartEvent::ConfigDirChecked(true), StartEvent::LogCloned(Ok(()))] {
            let mut s = MihomoSupervisor::new();
            match s.start(&cfg, event) {
                StartAction::Done(Err(error)) => {
                    assert!(matches!(&error, StartError::ConfigFileOutside(n) if n == name));
                    assert_eq!(
                        error.message(),
                        format!("config file not inside config_dir: {}", name)
                    );
                }
                other => panic!("{:?}", other),
            }
        }
        let mut s = MihomoSupervisor::new();
        assert!(matches!(s.start(&cfg, StartEvent::ConfigDirChecked(false)),
            StartAction::Done(Err(StartError::ConfigDirNotFound(_)))));
    }
}

#[test]
fn config_inside_its_directory_is_run() {
    for (dir, name, path) in [
        ("/etc/mihomo", "config.yaml", "/etc/mihomo/config.yaml"),
        ("/etc/mihomo", "sub/config.yaml", "/etc/mihomo/sub/config.yaml"),
        ("/etc/mihomo/", "..a", "/etc/mihomo/..a"),
        ("/etc/mihomo", "a/../b.yaml", "/etc/mihomo/a/../b.yaml"),
    ] {
        let cfg = MihomoStartConfig {
            config_dir: dir.into(),
            config_file: name.into(),
            ..config()
        };
        let mut s = MihomoSupervisor::new();
        assert!(matches!(s.start(&cfg, StartEvent::ConfigDirChecked(true)),
            StartAction::CheckConfigFile(p) if p == path));
        assert!(matches!(s.start(&cfg, StartEvent::LogCloned(Ok(()))),
            StartAction::Spawn(line) if line.args == vec!["-d", dir, "-f", path]));
    }
}

#[test]
fn is_running_gives_up_a_dead_child() {
    let mut idle = MihomoSupervisor::new();
    assert!(!idle.is_running(&ChildStatus::Alive));
    let mut s = running(3);
    assert!(s.is_running(&ChildStatus::Alive));
    assert!(s.has_child());
    assert!(!s.is_running(&ChildStatus::Exited));
    assert!(!s.has_child());
    let mut s = running(3);
    assert!(!s.is_running(&ChildStatus::Failed("EIO".into())));
    assert!(!s.has_child());
}

#[test]
fn stop_waits_for_the_child() {
    let mut s = running(9);
    assert!(matches!(s.stop(StopEvent::Begin), StopAction::Terminate(9)));
    assert!(!s.has_child());
    let alive = StopEvent::Polled { status: ChildStatus::Alive, waited_millis: 0 };
    assert!(matches!(s.stop(alive), StopAction::Sleep(STOP_POLL_MILLIS)));
    let gone = StopEvent::Polled { status: ChildStatus::Exited, waited_millis: 100 };
    assert!(matches!(s.stop(gone), StopAction::Done(Ok(()))));
}

#[test]
fn stop_kills_after_the_grace() {
    assert_eq!(STOP_GRACE_MILLIS, 5000);
    assert_eq!(STOP_POLL_MILLIS, 100);
    let mut s = running(9);
    assert!(matches!(s.stop(StopEvent::Begin), StopAction::Terminate(9)));
    let early = StopEvent::Polled { status: ChildStatus::Alive, waited_millis: 4999 };
    assert!(matches!(s.stop(early), StopAction::Sleep(100)));
    let late = StopEvent::Polled { status: ChildStatus::Alive, waited_millis: 5000 };
    assert!(matches!(s.stop(late), StopAction::Kill));
    assert!(matches!(s.stop(StopEvent::Killed), StopAction::Done(Ok(()))));
}

#[test]
fn stop_reports_a_failed_look() {
    let mut s = running(9);
    s.stop(StopEvent::Begin);
    let failed = StopEvent::Polled { status: ChildStatus::Failed("EIO".into()), waited_millis: 0 };
    assert!(matches!(s.stop(failed), StopAction::Done(Err(e)) if e == "EIO"));
}

#[test]
fn stop_is_idempotent() {
    let mut s = MihomoSupervisor::new();
    assert!(matches!(s.stop(StopEvent::Begin), StopAction::Done(Ok(()))));
    let mut s = running(1);
    s.stop(StopEvent::Begin);
    assert!(matches!(s.stop(StopEvent::Begin), StopAction::Done(Ok(()))));
}
