use sc_helper::install::{
    bootout_line, install_plan, judge_run, render_plist, InstallFacts, InstallRun, InstallStep,
    RunPolicy,
};
use sc_helper::paths::Platform;
use sc_helper::service::command::{command, CommandLine, CommandOutcome};

fn everything() -> InstallFacts {
    InstallFacts {
        helper: true,
        mihomo: true,
        ping: true,
        registered: true,
        installed_mihomo: true,
        installed_ping: true,
    }
}

fn only_the_helper() -> InstallFacts {
    InstallFacts {
        helper: true,
        mihomo: false,
        ping: false,
        registered: false,
        installed_mihomo: false,
        installed_ping: false,
    }
}

fn line(l: &CommandLine) -> String {
    let mut all = vec![l.program.clone()];
    all.extend(l.args.iter().cloned());
    all.join(" ")
}

fn shown(step: &InstallStep) -> String {
    match step {
        InstallStep::Say(text) => format!("say {}", text),
        InstallStep::MakeDir(path) => format!("mkdir {}", path),
        InstallStep::Copy { from, to } => format!("copy {} {}", from, to),
        InstallStep::Write { path, body } => format!("write {} {}", path, body.len()),
        InstallStep::Own(path) => format!("own {}", path),
        InstallStep::SetMode { path, mode } => format!("mode {:o} {}", mode, path),
        InstallStep::Run(run) => format!("run {:?} {}", run.policy, line(&run.line)),
    }
}

fn plan(platform: Platform, facts: InstallFacts) -> Vec<String> {
    install_plan(platform, "/payload", facts, "[Unit]\n")
        .unwrap()
        .iter()
        .map(shown)
        .collect()
}

#[test]
fn mac_upgrade_plan() {
    let dir = "/Library/PrivilegedHelperTools/com.scloud.helper";
    let plist = "/Library/LaunchDaemons/com.scloud.helper.plist";
    assert_eq!(
        plan(Platform::MacOs, everything()),
        vec![
            format!("mkdir {dir}"),
            "say existing install detected \u{2014} bootout first".to_string(),
            "run Ignore launchctl bootout system/com.scloud.helper".to_string(),
            format!("copy /payload/sc-helper {dir}/sc-helper"),
            "say copied sc-helper".to_string(),
            format!("copy /payload/sc-mihomo {dir}/sc-mihomo"),
            "say copied sc-mihomo".to_string(),
            format!("copy /payload/sc-helper-ping {dir}/sc-helper-ping"),
            "say copied sc-helper-ping".to_string(),
            format!("write {plist} {}", render_plist().len()),
            "say wrote plist".to_string(),
            format!("own {dir}/sc-helper"),
            format!("mode 755 {dir}/sc-helper"),
            format!("own {dir}/sc-mihomo"),
            format!("mode 755 {dir}/sc-mihomo"),
            format!("own {dir}/sc-helper-ping"),
            format!("mode 755 {dir}/sc-helper-ping"),
            format!("own {plist}"),
            format!("mode 644 {plist}"),
            "say perms set".to_string(),
            format!("run Warn launchctl bootstrap system {plist}"),
            "say done".to_string(),
        ]
    );
}

#[test]
fn mac_first_plan_without_the_optional_binaries() {
    let dir = "/Library/PrivilegedHelperTools/com.scloud.helper";
    let plist = "/Library/LaunchDaemons/com.scloud.helper.plist";
    assert_eq!(
        plan(Platform::MacOs, only_the_helper()),
        vec![
            "say WARN: sc-mihomo missing at /payload/sc-mihomo; helper will start but \
             StartMihomo will fail until it's added"
                .to_string(),
            "say WARN: sc-helper-ping missing at /payload/sc-helper-ping; support diagnostics \
             will be unavailable"
                .to_string(),
            format!("mkdir {dir}"),
            format!("copy /payload/sc-helper {dir}/sc-helper"),
            "say copied sc-helper".to_string(),
            format!("write {plist} {}", render_plist().len()),
            "say wrote plist".to_string(),
            format!("own {dir}/sc-helper"),
            format!("mode 755 {dir}/sc-helper"),
            format!("own {plist}"),
            format!("mode 644 {plist}"),
            "say perms set".to_string(),
            format!("run Warn launchctl bootstrap system {plist}"),
            "say done".to_string(),
        ]
    );
}

#[test]
fn left_over_binaries_are_secured_too() {
    let facts = InstallFacts { installed_mihomo: true, ..only_the_helper() };
    let steps = plan(Platform::Linux, facts);
    assert!(steps.contains(&"own /usr/lib/sc-helper/sc-mihomo".to_string()));
    assert!(steps.contains(&"mode 755 /usr/lib/sc-helper/sc-mihomo".to_string()));
    assert!(!steps.contains(&"own /usr/lib/sc-helper/sc-helper-ping".to_string()));
}

#[test]
fn linux_upgrade_plan() {
    let dir = "/usr/lib/sc-helper";
    let unit = "/etc/systemd/system/sc-helper.service";
    assert_eq!(
        plan(Platform::Linux, everything()),
        vec![
            "say existing install detected \u{2014} stop + disable first".to_string(),
            "run Ignore systemctl disable --now sc-helper".to_string(),
            format!("mkdir {dir}"),
            format!("copy /payload/sc-helper {dir}/sc-helper"),
            "say copied sc-helper".to_string(),
            format!("copy /payload/sc-mihomo {dir}/sc-mihomo"),
            "say copied sc-mihomo".to_string(),
            format!("copy /payload/sc-helper-ping {dir}/sc-helper-ping"),
            "say copied sc-helper-ping".to_string(),
            format!("write {unit} 7"),
            "say wrote systemd unit".to_string(),
            format!("own {dir}/sc-helper"),
            format!("mode 755 {dir}/sc-helper"),
            format!("own {dir}/sc-mihomo"),
            format!("mode 755 {dir}/sc-mihomo"),
            format!("own {dir}/sc-helper-ping"),
            format!("mode 755 {dir}/sc-helper-ping"),
            format!("own {unit}"),
            format!("mode 644 {unit}"),
            "say perms set".to_string(),
            "run Warn systemctl daemon-reload".to_string(),
            "run Require systemctl enable --now sc-helper".to_string(),
            "say done".to_string(),
        ]
    );
}

#[test]
fn there_is_no_plan_without_the_helper() {
    let facts = InstallFacts { helper: false, ..everything() };
    for platform in [Platform::MacOs, Platform::Linux] {
        assert_eq!(
            install_plan(platform, "/payload", facts, "").unwrap_err(),
            "expected sibling binary sc-helper at /payload/sc-helper"
        );
    }
}

#[test]
fn there_is_no_plan_on_windows() {
    assert_eq!(
        install_plan(Platform::Windows, "/payload", everything(), "").unwrap_err(),
        "sc-helper-install: not yet implemented on this OS. Windows installer comes in phase 3."
    );
}

#[test]
fn plist_text_is_exact() {
    assert_eq!(
        render_plist(),
        r#"<?xml version="1.0" encoding="UTF-8"?>
<!DOCTYPE plist PUBLIC "-//Apple//DTD PLIST 1.0//EN" "http://www.apple.com/DTDs/PropertyList-1.0.dtd">
<plist version="1.0">
<dict>
    <key>Label</key>
    <string>com.scloud.helper</string>
    <key>ProgramArguments</key>
    <array>
        <string>/Library/PrivilegedHelperTools/com.scloud.helper/sc-helper</string>
    </array>
    <key>RunAtLoad</key>
    <true/>
    <key>KeepAlive</key>
    <true/>
    <key>StandardOutPath</key>
    <string>/Library/Logs/sc-helper.log</string>
    <key>StandardErrorPath</key>
    <string>/Library/Logs/sc-helper.err.log</string>
    <key>EnvironmentVariables</key>
    <dict>
        <key>RUST_LOG</key>
        <string>info</string>
    </dict>
</dict>
</plist>
"#
    );
}

fn run(policy: RunPolicy, done: &str) -> InstallRun {
    InstallRun {
        line: command("systemctl"),
        policy,
        name: "systemctl x".into(),
        label: "x".into(),
        done: done.into(),
    }
}

#[test]
fn runs_are_judged_by_their_policy() {
    let ok = || CommandOutcome::Finished {
        success: true,
        status: "exit status: 0".into(),
        stdout: vec![],
        stderr: vec![],
    };
    let bad = || CommandOutcome::Finished {
        success: false,
        status: "exit status: 5".into(),
        stdout: vec![],
        stderr: vec![],
    };
    let none = || CommandOutcome::NotStarted { error: "ENOENT".into() };
    for result in [ok(), bad(), none()] {
        assert_eq!(judge_run(&run(RunPolicy::Ignore, "fine"), &result), Ok(None));
    }
    for policy in [RunPolicy::Warn, RunPolicy::Require] {
        assert_eq!(judge_run(&run(policy, "fine"), &ok()), Ok(Some("fine".to_string())));
        assert_eq!(judge_run(&run(policy, ""), &ok()), Ok(None));
        assert_eq!(
            judge_run(&run(policy, ""), &none()),
            Err("spawning systemctl x: ENOENT".to_string())
        );
    }
    assert_eq!(
        judge_run(&run(RunPolicy::Warn, ""), &bad()),
        Ok(Some("WARN: x exited exit status: 5".to_string()))
    );
    assert_eq!(
        judge_run(&run(RunPolicy::Require, ""), &bad()),
        Err("x failed: exit exit status: 5".to_string())
    );
}

#[test]
fn bootout_names_the_label() {
    assert_eq!(line(&bootout_line()), "launchctl bootout system/com.scloud.helper");
}
