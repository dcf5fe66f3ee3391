//! Installer: runs once with administrator rights, wires the helper into launchd
//! or systemd, and exits.
//!
//! It copies `sc-helper`, and `sc-mihomo` and `sc-helper-ping` if they are there,
//! from its own directory to the install directory, writes the service
//! definition, sets owners and modes, and registers the service. Running it
//! again upgrades: an existing service is stopped first.
//!
//! The plan is made here, from what is on disk; the caller carries out its steps
//! one after the other and stops at the first that fails.
use crate::paths::{join, joined_path, linux, macos, Platform};
use crate::service::command::{
    command, CommandLine, CommandLineView, CommandOutcome, CommandOutcomeView,
};
use vstd::prelude::*;

verus! {

/// The mode of an installed binary.
pub const BINARY_MODE: u32 = 0o755;

/// The mode of the service definition.
pub const DEFINITION_MODE: u32 = 0o644;

// ---------------------------------------------------------------------------
// Steps
// ---------------------------------------------------------------------------

/// What the failure of a program means.
#[derive(Debug, Clone, Copy, PartialEq, Eq, Structural)]
pub enum RunPolicy {
    /// Nothing, not even that it could not be started.
    Ignore,
    /// That it reports failure is worth a warning.
    Warn,
    /// That it reports failure ends the installation.
    Require,
}

/// A program to run, and what to say of it.
#[derive(Debug)]
pub struct InstallRun {
    pub line: CommandLine,
    pub policy: RunPolicy,
    /// What could not be started, if it could not.
    pub name: String,
    /// What failed, if it did.
    pub label: String,
    /// What to say of success; nothing if empty.
    pub done: String,
}

/// A program to run, with its texts as sequences.
pub struct InstallRunView {
    pub line: CommandLineView,
    pub policy: RunPolicy,
    pub name: Seq<char>,
    pub label: Seq<char>,
    pub done: Seq<char>,
}

impl View for InstallRun {
    type V = InstallRunView;

    open spec fn view(&self) -> InstallRunView {
        InstallRunView {
            line: self.line@,
            policy: self.policy,
            name: self.name@,
            label: self.label@,
            done: self.done@,
        }
    }
}

/// One step of an installation.
#[derive(Debug)]
pub enum InstallStep {
    /// Print a line.
    Say(String),
    /// Make a directory and its parents.
    MakeDir(String),
    /// Copy a file.
    Copy { from: String, to: String },
    /// Write a file.
    Write { path: String, body: String },
    /// Give a file to user 0 and group 0.
    Own(String),
    /// Set the mode of a file.
    SetMode { path: String, mode: u32 },
    /// Run a program.
    Run(InstallRun),
}

/// One step of an installation, with its texts as sequences.
pub enum InstallStepView {
    Say(Seq<char>),
    MakeDir(Seq<char>),
    Copy { from: Seq<char>, to: Seq<char> },
    Write { path: Seq<char>, body: Seq<char> },
    Own(Seq<char>),
    SetMode { path: Seq<char>, mode: u32 },
    Run(InstallRunView),
}

impl View for InstallStep {
    type V = InstallStepView;

    open spec fn view(&self) -> InstallStepView {
        match self {
            InstallStep::Say(line) => InstallStepView::Say(line@),
            InstallStep::MakeDir(path) => InstallStepView::MakeDir(path@),
            InstallStep::Copy { from, to } => InstallStepView::Copy { from: from@, to: to@ },
            InstallStep::Write { path, body } => InstallStepView::Write {
                path: path@,
                body: body@,
            },
            InstallStep::Own(path) => InstallStepView::Own(path@),
            InstallStep::SetMode { path, mode } => InstallStepView::SetMode {
                path: path@,
                mode: *mode,
            },
            InstallStep::Run(run) => InstallStepView::Run(run@),
        }
    }
}

/// The steps of a plan.
pub open spec fn steps(plan: Seq<InstallStep>) -> Seq<InstallStepView> {
    plan.map_values(|step: InstallStep| step@)
}

fn push_step(plan: &mut Vec<InstallStep>, step: InstallStep)
    ensures
        steps(final(plan)@) == steps(old(plan)@).push(step@),
{
    plan.push(step);
    assert(steps(plan@) == steps(old(plan)@).push(step@));
}

fn say(plan: &mut Vec<InstallStep>, line: &str)
    ensures
        steps(final(plan)@) == steps(old(plan)@).push(InstallStepView::Say(line@)),
{
    push_step(plan, InstallStep::Say(line.to_owned()));
}

// ---------------------------------------------------------------------------
// The service definition
// ---------------------------------------------------------------------------

/// The text of a LaunchDaemon property list.
pub open spec fn plist_text(
    label: Seq<char>,
    bin: Seq<char>,
    stdout: Seq<char>,
    stderr: Seq<char>,
) -> Seq<char> {
    r#"<?xml version="1.0" encoding="UTF-8"?>
<!DOCTYPE plist PUBLIC "-//Apple//DTD PLIST 1.0//EN" "http://www.apple.com/DTDs/PropertyList-1.0.dtd">
<plist version="1.0">
<dict>
    <key>Label</key>
    <string>"#@ + label + r#"</string>
    <key>ProgramArguments</key>
    <array>
        <string>"#@ + bin + r#"</string>
    </array>
    <key>RunAtLoad</key>
    <true/>
    <key>KeepAlive</key>
    <true/>
    <key>StandardOutPath</key>
    <string>"#@ + stdout + r#"</string>
    <key>StandardErrorPath</key>
    <string>"#@ + stderr + r#"</string>
    <key>EnvironmentVariables</key>
    <dict>
        <key>RUST_LOG</key>
        <string>info</string>
    </dict>
</dict>
</plist>
"#@
}

/// The property list of the helper: started at load, kept alive.
pub fn render_plist() -> (r: String)
    ensures
        r@ == plist_text(
            macos::LAUNCHD_LABEL@,
            macos::HELPER_BINARY@,
            macos::STDOUT_LOG@,
            macos::STDERR_LOG@,
        ),
{
    let mut r: String = r#"<?xml version="1.0" encoding="UTF-8"?>
<!DOCTYPE plist PUBLIC "-//Apple//DTD PLIST 1.0//EN" "http://www.apple.com/DTDs/PropertyList-1.0.dtd">
<plist version="1.0">
<dict>
    <key>Label</key>
    <string>"#.to_owned();
    r.append(macos::LAUNCHD_LABEL);
    r.append(
        r#"</string>
    <key>ProgramArguments</key>
    <array>
        <string>"#,
    );
    r.append(macos::HELPER_BINARY);
    r.append(
        r#"</string>
    </array>
    <key>RunAtLoad</key>
    <true/>
    <key>KeepAlive</key>
    <true/>
    <key>StandardOutPath</key>
    <string>"#,
    );
    r.append(macos::STDOUT_LOG);
    r.append(
        r#"</string>
    <key>StandardErrorPath</key>
    <string>"#,
    );
    r.append(macos::STDERR_LOG);
    r.append(
        r#"</string>
    <key>EnvironmentVariables</key>
    <dict>
        <key>RUST_LOG</key>
        <string>info</string>
    </dict>
</dict>
</plist>
"#,
    );
    r
}

// ---------------------------------------------------------------------------
// The plan
// ---------------------------------------------------------------------------

/// What is on disk before the installation.
#[derive(Debug, Clone, Copy)]
pub struct InstallFacts {
    /// Whether `sc-helper` stands next to the installer.
    pub helper: bool,
    /// Whether `sc-mihomo` does.
    pub mihomo: bool,
    /// Whether `sc-helper-ping` does.
    pub ping: bool,
    /// Whether the service definition exists already.
    pub registered: bool,
    /// Whether an earlier installation left `sc-mihomo` behind.
    pub installed_mihomo: bool,
    /// Whether an earlier installation left `sc-helper-ping` behind.
    pub installed_ping: bool,
}

/// `items` if `condition` holds, else nothing.
pub open spec fn when<A>(condition: bool, items: Seq<A>) -> Seq<A> {
    if condition {
        items
    } else {
        Seq::empty()
    }
}

/// The warnings about binaries that are not shipped.
pub open spec fn warning_steps(payload_dir: Seq<char>, facts: InstallFacts) -> Seq<InstallStepView> {
    when(
        !facts.mihomo,
        seq![
            InstallStepView::Say(
                "WARN: sc-mihomo missing at "@ + joined_path(payload_dir, "sc-mihomo"@)
                    + "; helper will start but StartMihomo will fail until it's added"@,
            ),
        ],
    ) + when(
        !facts.ping,
        seq![
            InstallStepView::Say(
                "WARN: sc-helper-ping missing at "@ + joined_path(payload_dir, "sc-helper-ping"@)
                    + "; support diagnostics will be unavailable"@,
            ),
        ],
    )
}

/// The copy of one binary.
pub open spec fn copy_steps(
    present: bool,
    payload_dir: Seq<char>,
    install_dir: Seq<char>,
    name: Seq<char>,
) -> Seq<InstallStepView> {
    when(
        present,
        seq![
            InstallStepView::Copy {
                from: joined_path(payload_dir, name),
                to: joined_path(install_dir, name),
            },
            InstallStepView::Say("copied "@ + name),
        ],
    )
}

/// Owner and mode of one file.
pub open spec fn secure_steps(present: bool, path: Seq<char>, mode: u32) -> Seq<InstallStepView> {
    when(present, seq![InstallStepView::Own(path), InstallStepView::SetMode { path, mode }])
}

/// The copies of all binaries.
pub open spec fn all_copies(
    payload_dir: Seq<char>,
    install_dir: Seq<char>,
    facts: InstallFacts,
) -> Seq<InstallStepView> {
    copy_steps(true, payload_dir, install_dir, "sc-helper"@) + copy_steps(
        facts.mihomo,
        payload_dir,
        install_dir,
        "sc-mihomo"@,
    ) + copy_steps(facts.ping, payload_dir, install_dir, "sc-helper-ping"@)
}

/// Owners and modes of all binaries and of the service definition.
pub open spec fn all_secured(
    install_dir: Seq<char>,
    definition: Seq<char>,
    facts: InstallFacts,
) -> Seq<InstallStepView> {
    secure_steps(true, joined_path(install_dir, "sc-helper"@), BINARY_MODE) + secure_steps(
        facts.mihomo || facts.installed_mihomo,
        joined_path(install_dir, "sc-mihomo"@),
        BINARY_MODE,
    ) + secure_steps(
        facts.ping || facts.installed_ping,
        joined_path(install_dir, "sc-helper-ping"@),
        BINARY_MODE,
    ) + secure_steps(true, definition, DEFINITION_MODE) + seq![InstallStepView::Say("perms set"@)]
}

/// The launchd service that is booted out and in.
pub open spec fn launchd_target() -> Seq<char> {
    "system/"@ + macos::LAUNCHD_LABEL@
}

/// The run that unregisters an existing LaunchDaemon.
pub open spec fn bootout_run() -> InstallStepView {
    InstallStepView::Run(
        InstallRunView {
            line: CommandLineView {
                program: "launchctl"@,
                args: seq!["bootout"@, launchd_target()],
            },
            policy: RunPolicy::Ignore,
            name: "launchctl"@,
            label: "launchctl bootout"@,
            done: ""@,
        },
    )
}

/// The run that registers the LaunchDaemon. It also reports failure if the
/// daemon was loaded already.
pub open spec fn bootstrap_run() -> InstallStepView {
    InstallStepView::Run(
        InstallRunView {
            line: CommandLineView {
                program: "launchctl"@,
                args: seq!["bootstrap"@, "system"@, macos::LAUNCHD_PLIST@],
            },
            policy: RunPolicy::Warn,
            name: "launchctl"@,
            label: "launchctl bootstrap"@,
            done: "launchctl bootstrap OK"@,
        },
    )
}

/// The installation on macOS.
pub open spec fn macos_steps(payload_dir: Seq<char>, facts: InstallFacts) -> Seq<InstallStepView> {
    warning_steps(payload_dir, facts) + seq![InstallStepView::MakeDir(macos::HELPER_INSTALL_DIR@)]
        + when(
        facts.registered,
        seq![
            InstallStepView::Say("existing install detected — bootout first"@),
            bootout_run(),
        ],
    ) + all_copies(payload_dir, macos::HELPER_INSTALL_DIR@, facts) + seq![
        InstallStepView::Write {
            path: macos::LAUNCHD_PLIST@,
            body: plist_text(
                macos::LAUNCHD_LABEL@,
                macos::HELPER_BINARY@,
                macos::STDOUT_LOG@,
                macos::STDERR_LOG@,
            ),
        },
        InstallStepView::Say("wrote plist"@),
    ] + all_secured(macos::HELPER_INSTALL_DIR@, macos::LAUNCHD_PLIST@, facts) + seq![
        bootstrap_run(),
        InstallStepView::Say("done"@),
    ]
}

/// The run that stops and disables an existing systemd service.
pub open spec fn disable_run() -> InstallStepView {
    InstallStepView::Run(
        InstallRunView {
            line: CommandLineView {
                program: "systemctl"@,
                args: seq!["disable"@, "--now"@, linux::SERVICE_NAME@],
            },
            policy: RunPolicy::Ignore,
            name: "systemctl disable --now"@,
            label: "systemctl disable --now"@,
            done: ""@,
        },
    )
}

/// The run that makes systemd read the unit.
pub open spec fn reload_run() -> InstallStepView {
    InstallStepView::Run(
        InstallRunView {
            line: CommandLineView { program: "systemctl"@, args: seq!["daemon-reload"@] },
            policy: RunPolicy::Warn,
            name: "systemctl daemon-reload"@,
            label: "daemon-reload"@,
            done: ""@,
        },
    )
}

/// The run that enables and starts the service.
pub open spec fn enable_run() -> InstallStepView {
    InstallStepView::Run(
        InstallRunView {
            line: CommandLineView {
                program: "systemctl"@,
                args: seq!["enable"@, "--now"@, linux::SERVICE_NAME@],
            },
            policy: RunPolicy::Require,
            name: "systemctl enable --now"@,
            label: "systemctl enable --now "@ + linux::SERVICE_NAME@,
            done: "systemctl enable --now OK"@,
        },
    )
}

/// The installation on Linux, with `unit` as the text of the systemd unit.
pub open spec fn linux_steps(
    payload_dir: Seq<char>,
    facts: InstallFacts,
    unit: Seq<char>,
) -> Seq<InstallStepView> {
    warning_steps(payload_dir, facts) + when(
        facts.registered,
        seq![
            InstallStepView::Say("existing install detected — stop + disable first"@),
            disable_run(),
        ],
    ) + seq![InstallStepView::MakeDir(linux::HELPER_INSTALL_DIR@)] + all_copies(
        payload_dir,
        linux::HELPER_INSTALL_DIR@,
        facts,
    ) + seq![
        InstallStepView::Write { path: linux::SYSTEMD_UNIT_PATH@, body: unit },
        InstallStepView::Say("wrote systemd unit"@),
    ] + all_secured(linux::HELPER_INSTALL_DIR@, linux::SYSTEMD_UNIT_PATH@, facts) + seq![
        reload_run(),
        enable_run(),
        InstallStepView::Say("done"@),
    ]
}

/// The plan of an installation, or why there can be none.
pub open spec fn planned(
    platform: Platform,
    payload_dir: Seq<char>,
    facts: InstallFacts,
    unit: Seq<char>,
) -> Result<Seq<InstallStepView>, Seq<char>> {
    if platform == Platform::Windows {
        Err("sc-helper-install: not yet implemented on this OS. Windows installer comes in phase 3."@)
    } else if !facts.helper {
        Err("expected sibling binary sc-helper at "@ + joined_path(payload_dir, "sc-helper"@))
    } else if platform == Platform::MacOs {
        Ok(macos_steps(payload_dir, facts))
    } else {
        Ok(linux_steps(payload_dir, facts, unit))
    }
}

fn add_warnings(plan: &mut Vec<InstallStep>, payload_dir: &str, facts: InstallFacts)
    ensures
        steps(final(plan)@) == steps(old(plan)@) + warning_steps(payload_dir@, facts),
{
    if !facts.mihomo {
        say(
            plan,
            "WARN: sc-mihomo missing at ".to_owned().concat(
                join(payload_dir, "sc-mihomo").as_str(),
            ).concat(
                "; helper will start but StartMihomo will fail until it's added",
            ).as_str(),
        );
    }
    if !facts.ping {
        say(
            plan,
            "WARN: sc-helper-ping missing at ".to_owned().concat(
                join(payload_dir, "sc-helper-ping").as_str(),
            ).concat("; support diagnostics will be unavailable").as_str(),
        );
    }
    assert(steps(plan@) =~= steps(old(plan)@) + warning_steps(payload_dir@, facts));
}

fn add_copy(
    plan: &mut Vec<InstallStep>,
    present: bool,
    payload_dir: &str,
    install_dir: &str,
    name: &str,
)
    ensures
        steps(final(plan)@) == steps(old(plan)@) + copy_steps(
            present,
            payload_dir@,
            install_dir@,
            name@,
        ),
{
    if present {
        push_step(
            plan,
            InstallStep::Copy { from: join(payload_dir, name), to: join(install_dir, name) },
        );
        say(plan, "copied ".to_owned().concat(name).as_str());
    }
    assert(steps(plan@) =~= steps(old(plan)@) + copy_steps(
        present,
        payload_dir@,
        install_dir@,
        name@,
    ));
}

fn add_copies(
    plan: &mut Vec<InstallStep>,
    payload_dir: &str,
    install_dir: &str,
    facts: InstallFacts,
)
    ensures
        steps(final(plan)@) == steps(old(plan)@) + all_copies(payload_dir@, install_dir@, facts),
{
    add_copy(plan, true, payload_dir, install_dir, "sc-helper");
    add_copy(plan, facts.mihomo, payload_dir, install_dir, "sc-mihomo");
    add_copy(plan, facts.ping, payload_dir, install_dir, "sc-helper-ping");
    assert(steps(plan@) =~= steps(old(plan)@) + all_copies(payload_dir@, install_dir@, facts));
}

fn add_secured(plan: &mut Vec<InstallStep>, present: bool, path: &str, mode: u32)
    ensures
        steps(final(plan)@) == steps(old(plan)@) + secure_steps(present, path@, mode),
{
    if present {
        push_step(plan, InstallStep::Own(path.to_owned()));
        push_step(plan, InstallStep::SetMode { path: path.to_owned(), mode });
    }
    assert(steps(plan@) =~= steps(old(plan)@) + secure_steps(present, path@, mode));
}

fn add_all_secured(
    plan: &mut Vec<InstallStep>,
    install_dir: &str,
    definition: &str,
    facts: InstallFacts,
)
    ensures
        steps(final(plan)@) == steps(old(plan)@) + all_secured(install_dir@, definition@, facts),
{
    add_secured(plan, true, join(install_dir, "sc-helper").as_str(), BINARY_MODE);
    add_secured(
        plan,
        facts.mihomo || facts.installed_mihomo,
        join(install_dir, "sc-mihomo").as_str(),
        BINARY_MODE,
    );
    add_secured(
        plan,
        facts.ping || facts.installed_ping,
        join(install_dir, "sc-helper-ping").as_str(),
        BINARY_MODE,
    );
    add_secured(plan, true, definition, DEFINITION_MODE);
    say(plan, "perms set");
    assert(steps(plan@) =~= steps(old(plan)@) + all_secured(install_dir@, definition@, facts));
}

fn run_step(line: CommandLine, policy: RunPolicy, name: &str, label: &str, done: &str) -> (r:
    InstallStep)
    ensures
        r@ == InstallStepView::Run(
            InstallRunView { line: line@, policy, name: name@, label: label@, done: done@ },
        ),
{
    InstallStep::Run(
        InstallRun {
            line,
            policy,
            name: name.to_owned(),
            label: label.to_owned(),
            done: done.to_owned(),
        },
    )
}

/// The command that unregisters the LaunchDaemon.
pub fn bootout_line() -> (r: CommandLine)
    ensures
        r@ == (CommandLineView { program: "launchctl"@, args: seq!["bootout"@, launchd_target()] }),
{
    let target: String = "system/".to_owned().concat(macos::LAUNCHD_LABEL);
    let r: CommandLine = command("launchctl").arg("bootout").arg(target.as_str());
    assert(r@.args =~= seq!["bootout"@, launchd_target()]);
    r
}

fn macos_plan(payload_dir: &str, facts: InstallFacts) -> (r: Vec<InstallStep>)
    ensures
        steps(r@) == macos_steps(payload_dir@, facts),
{
    let mut plan: Vec<InstallStep> = Vec::new();
    assert(steps(plan@) =~= Seq::<InstallStepView>::empty());
    add_warnings(&mut plan, payload_dir, facts);
    push_step(&mut plan, InstallStep::MakeDir(macos::HELPER_INSTALL_DIR.to_owned()));
    if facts.registered {
        say(&mut plan, "existing install detected — bootout first");
        push_step(
            &mut plan,
            run_step(bootout_line(), RunPolicy::Ignore, "launchctl", "launchctl bootout", ""),
        );
    }
    add_copies(&mut plan, payload_dir, macos::HELPER_INSTALL_DIR, facts);
    push_step(
        &mut plan,
        InstallStep::Write { path: macos::LAUNCHD_PLIST.to_owned(), body: render_plist() },
    );
    say(&mut plan, "wrote plist");
    add_all_secured(&mut plan, macos::HELPER_INSTALL_DIR, macos::LAUNCHD_PLIST, facts);
    let line: CommandLine = command("launchctl").arg("bootstrap").arg("system").arg(
        macos::LAUNCHD_PLIST,
    );
    assert(line@.args =~= seq!["bootstrap"@, "system"@, macos::LAUNCHD_PLIST@]);
    push_step(
        &mut plan,
        run_step(
            line,
            RunPolicy::Warn,
            "launchctl",
            "launchctl bootstrap",
            "launchctl bootstrap OK",
        ),
    );
    say(&mut plan, "done");
    assert(steps(plan@) =~= macos_steps(payload_dir@, facts));
    plan
}

fn linux_plan(payload_dir: &str, facts: InstallFacts, unit: &str) -> (r: Vec<InstallStep>)
    ensures
        steps(r@) == linux_steps(payload_dir@, facts, unit@),
{
    let mut plan: Vec<InstallStep> = Vec::new();
    assert(steps(plan@) =~= Seq::<InstallStepView>::empty());
    add_warnings(&mut plan, payload_dir, facts);
    if facts.registered {
        say(&mut plan, "existing install detected — stop + disable first");
        let line: CommandLine = command("systemctl").arg("disable").arg("--now").arg(
            linux::SERVICE_NAME,
        );
        assert(line@.args =~= seq!["disable"@, "--now"@, linux::SERVICE_NAME@]);
        push_step(
            &mut plan,
            run_step(
                line,
                RunPolicy::Ignore,
                "systemctl disable --now",
                "systemctl disable --now",
                "",
            ),
        );
    }
    push_step(&mut plan, InstallStep::MakeDir(linux::HELPER_INSTALL_DIR.to_owned()));
    add_copies(&mut plan, payload_dir, linux::HELPER_INSTALL_DIR, facts);
    push_step(
        &mut plan,
        InstallStep::Write { path: linux::SYSTEMD_UNIT_PATH.to_owned(), body: unit.to_owned() },
    );
    say(&mut plan, "wrote systemd unit");
    add_all_secured(&mut plan, linux::HELPER_INSTALL_DIR, linux::SYSTEMD_UNIT_PATH, facts);
    let reload: CommandLine = command("systemctl").arg("daemon-reload");
    assert(reload@.args =~= seq!["daemon-reload"@]);
    push_step(
        &mut plan,
        run_step(reload, RunPolicy::Warn, "systemctl daemon-reload", "daemon-reload", ""),
    );
    let enable: CommandLine = command("systemctl").arg("enable").arg("--now").arg(
        linux::SERVICE_NAME,
    );
    assert(enable@.args =~= seq!["enable"@, "--now"@, linux::SERVICE_NAME@]);
    push_step(
        &mut plan,
        run_step(
            enable,
            RunPolicy::Require,
            "systemctl enable --now",
            "systemctl enable --now ".to_owned().concat(linux::SERVICE_NAME).as_str(),
            "systemctl enable --now OK",
        ),
    );
    say(&mut plan, "done");
    assert(steps(plan@) =~= linux_steps(payload_dir@, facts, unit@));
    plan
}

/// The plan of an installation from `payload_dir`, or why there can be none.
/// `unit` is the text of the systemd unit; macOS does not look at it.
pub fn install_plan(platform: Platform, payload_dir: &str, facts: InstallFacts, unit: &str) -> (r:
    Result<Vec<InstallStep>, String>)
    ensures
        ({
            let plan = planned(platform, payload_dir@, facts, unit@);
            &&& r is Ok <==> plan is Ok
            &&& r matches Ok(p) ==> plan == Ok::<_, Seq<char>>(steps(p@))
            &&& r matches Err(message) ==> plan == Err::<Seq<InstallStepView>, _>(message@)
        }),
{
    if platform == Platform::Windows {
        return Err(
            "sc-helper-install: not yet implemented on this OS. Windows installer comes in phase 3."
                .to_owned(),
        );
    }
    if !facts.helper {
        return Err(
            "expected sibling binary sc-helper at ".to_owned().concat(
                join(payload_dir, "sc-helper").as_str(),
            ),
        );
    }
    if platform == Platform::MacOs {
        Ok(macos_plan(payload_dir, facts))
    } else {
        Ok(linux_plan(payload_dir, facts, unit))
    }
}

// ---------------------------------------------------------------------------
// Runs
// ---------------------------------------------------------------------------

/// What to say of a run, or why the installation ends with it.
pub open spec fn run_verdict(run: InstallRunView, result: CommandOutcomeView) -> Result<
    Option<Seq<char>>,
    Seq<char>,
> {
    match (run.policy, result) {
        (RunPolicy::Ignore, _) => Ok(None),
        (_, CommandOutcomeView::NotStarted { error }) => Err(
            "spawning "@ + run.name + ": "@ + error,
        ),
        (_, CommandOutcomeView::Finished { success: true, .. }) => Ok(
            if run.done.len() > 0 {
                Some(run.done)
            } else {
                None
            },
        ),
        (RunPolicy::Warn, CommandOutcomeView::Finished { status, .. }) => Ok(
            Some("WARN: "@ + run.label + " exited "@ + status),
        ),
        (RunPolicy::Require, CommandOutcomeView::Finished { status, .. }) => Err(
            run.label + " failed: exit "@ + status,
        ),
    }
}

/// What to say of a run, or why the installation ends with it.
pub fn judge_run(run: &InstallRun, result: &CommandOutcome) -> (r: Result<Option<String>, String>)
    ensures
        ({
            let verdict = run_verdict(run@, result@);
            &&& r is Ok <==> verdict is Ok
            &&& r matches Ok(Some(line)) ==> verdict == Ok::<_, Seq<char>>(Some(line@))
            &&& r matches Ok(None) ==> verdict == Ok::<Option<Seq<char>>, Seq<char>>(None)
            &&& r matches Err(message) ==> verdict == Err::<Option<Seq<char>>, _>(message@)
        }),
{
    if run.policy == RunPolicy::Ignore {
        return Ok(None);
    }
    match result {
        CommandOutcome::NotStarted { error } => Err(
            "spawning ".to_owned().concat(run.name.as_str()).concat(": ").concat(error.as_str()),
        ),
        CommandOutcome::Finished { success, status, stdout: _, stderr: _ } => {
            if *success {
                if run.done.as_str().unicode_len() > 0 {
                    Ok(Some(run.done.clone()))
                } else {
                    Ok(None)
                }
            } else if run.policy == RunPolicy::Warn {
                Ok(
                    Some(
                        "WARN: ".to_owned().concat(run.label.as_str()).concat(" exited ").concat(
                            status.as_str(),
                        ),
                    ),
                )
            } else {
                Err(run.label.clone().concat(" failed: exit ").concat(status.as_str()))
            }
        },
    }
}

// ---------------------------------------------------------------------------
// Laws of the plan
// ---------------------------------------------------------------------------

/// Whether no step of a plan copies a file.
pub open spec fn copies_nothing(plan: Seq<InstallStepView>) -> bool {
    forall|i: int| 0 <= i < plan.len() ==> !(#[trigger] plan[i] is Copy)
}

/// Whether every file that a plan copies is afterwards given to user 0 and made
/// executable.
pub open spec fn secures_copies(plan: Seq<InstallStepView>) -> bool {
    forall|i: int|
        0 <= i < plan.len() && (#[trigger] plan[i]) is Copy ==> {
            &&& exists|j: int| i < j < plan.len() && plan[j] == InstallStepView::Own(plan[i]->to)
            &&& exists|k: int|
                i < k < plan.len() && plan[k] == (InstallStepView::SetMode {
                    path: plan[i]->to,
                    mode: BINARY_MODE,
                })
        }
}

/// Whether a plan takes the step `stop` before it copies anything.
pub open spec fn stops_first(plan: Seq<InstallStepView>, stop: InstallStepView) -> bool {
    exists|i: int|
        0 <= i < plan.len() && plan[i] == stop && forall|j: int|
            0 <= j < plan.len() && (#[trigger] plan[j]) is Copy ==> i < j
}

proof fn lemma_secured_holds(secured: Seq<InstallStepView>, path: Seq<char>, at: int)
    requires
        0 <= at,
        at + 1 < secured.len(),
        secured[at] == InstallStepView::Own(path),
        secured[at + 1] == (InstallStepView::SetMode { path, mode: BINARY_MODE }),
    ensures
        exists|j: int| 0 <= j < secured.len() && secured[j] == InstallStepView::Own(path),
        exists|k: int|
            0 <= k < secured.len() && secured[k] == (InstallStepView::SetMode {
                path,
                mode: BINARY_MODE,
            }),
{
}

proof fn lemma_copy_is_secured(
    payload_dir: Seq<char>,
    install_dir: Seq<char>,
    definition: Seq<char>,
    facts: InstallFacts,
    i: int,
)
    requires
        0 <= i < all_copies(payload_dir, install_dir, facts).len(),
        all_copies(payload_dir, install_dir, facts)[i] is Copy,
    ensures
        ({
            let to = all_copies(payload_dir, install_dir, facts)[i]->to;
            let secured = all_secured(install_dir, definition, facts);
            &&& exists|j: int| 0 <= j < secured.len() && secured[j] == InstallStepView::Own(to)
            &&& exists|k: int|
                0 <= k < secured.len() && secured[k] == (InstallStepView::SetMode {
                    path: to,
                    mode: BINARY_MODE,
                })
        }),
{
    let copies = all_copies(payload_dir, install_dir, facts);
    let secured = all_secured(install_dir, definition, facts);
    let helper = joined_path(install_dir, "sc-helper"@);
    let mihomo = joined_path(install_dir, "sc-mihomo"@);
    let ping = joined_path(install_dir, "sc-helper-ping"@);
    let ping_at: int = if facts.mihomo || facts.installed_mihomo {
        4
    } else {
        2
    };
    if i == 0 {
        assert(copies[0]->to == helper);
        lemma_secured_holds(secured, helper, 0);
    } else if i == 2 && facts.mihomo {
        assert(copies[2]->to == mihomo);
        lemma_secured_holds(secured, mihomo, 2);
    } else {
        assert(copies[i]->to == ping);
        lemma_secured_holds(secured, ping, ping_at);
    }
}

proof fn lemma_plan_secures_copies(
    head: Seq<InstallStepView>,
    payload_dir: Seq<char>,
    install_dir: Seq<char>,
    definition: Seq<char>,
    facts: InstallFacts,
    mid: Seq<InstallStepView>,
    tail: Seq<InstallStepView>,
)
    requires
        copies_nothing(head),
        copies_nothing(mid),
        copies_nothing(tail),
    ensures
        secures_copies(
            head + all_copies(payload_dir, install_dir, facts) + mid + all_secured(
                install_dir,
                definition,
                facts,
            ) + tail,
        ),
{
    let copies = all_copies(payload_dir, install_dir, facts);
    let secured = all_secured(install_dir, definition, facts);
    let plan = head + copies + mid + secured + tail;
    let base = head.len() + copies.len() + mid.len();
    assert forall|i: int| 0 <= i < plan.len() && (#[trigger] plan[i]) is Copy implies {
        &&& exists|j: int| i < j < plan.len() && plan[j] == InstallStepView::Own(plan[i]->to)
        &&& exists|k: int|
            i < k < plan.len() && plan[k] == (InstallStepView::SetMode {
                path: plan[i]->to,
                mode: BINARY_MODE,
            })
    } by {
        if i < head.len() {
            assert(plan[i] == head[i]);
        } else if i < head.len() + copies.len() {
            let c = i - head.len();
            assert(plan[i] == copies[c]);
            lemma_copy_is_secured(payload_dir, install_dir, definition, facts, c);
            let j = choose|j: int|
                0 <= j < secured.len() && secured[j] == InstallStepView::Own(copies[c]->to);
            let k = choose|k: int|
                0 <= k < secured.len() && secured[k] == (InstallStepView::SetMode {
                    path: copies[c]->to,
                    mode: BINARY_MODE,
                });
            assert(plan[base + j] == secured[j]);
            assert(plan[base + k] == secured[k]);
        } else if i < base {
            assert(plan[i] == mid[i - head.len() - copies.len()]);
        } else if i < base + secured.len() {
            assert(plan[i] == secured[i - base]);
        } else {
            assert(plan[i] == tail[i - base - secured.len()]);
        }
    }
}

/// Every binary that an installation copies ends up owned by user 0 and
/// executable for everyone.
pub proof fn law_copies_are_secured(
    platform: Platform,
    payload_dir: Seq<char>,
    facts: InstallFacts,
    unit: Seq<char>,
)
    ensures
        planned(platform, payload_dir, facts, unit) matches Ok(plan) ==> secures_copies(plan),
{
    let warnings = warning_steps(payload_dir, facts);
    if facts.helper && platform == Platform::MacOs {
        let head = warnings + seq![InstallStepView::MakeDir(macos::HELPER_INSTALL_DIR@)] + when(
            facts.registered,
            seq![
                InstallStepView::Say("existing install detected — bootout first"@),
                bootout_run(),
            ],
        );
        let mid = seq![
            InstallStepView::Write {
                path: macos::LAUNCHD_PLIST@,
                body: plist_text(
                    macos::LAUNCHD_LABEL@,
                    macos::HELPER_BINARY@,
                    macos::STDOUT_LOG@,
                    macos::STDERR_LOG@,
                ),
            },
            InstallStepView::Say("wrote plist"@),
        ];
        let tail = seq![bootstrap_run(), InstallStepView::Say("done"@)];
        lemma_plan_secures_copies(
            head,
            payload_dir,
            macos::HELPER_INSTALL_DIR@,
            macos::LAUNCHD_PLIST@,
            facts,
            mid,
            tail,
        );
    } else if facts.helper && platform == Platform::Linux {
        let head = warnings + when(
            facts.registered,
            seq![
                InstallStepView::Say("existing install detected — stop + disable first"@),
                disable_run(),
            ],
        ) + seq![InstallStepView::MakeDir(linux::HELPER_INSTALL_DIR@)];
        let mid = seq![
            InstallStepView::Write { path: linux::SYSTEMD_UNIT_PATH@, body: unit },
            InstallStepView::Say("wrote systemd unit"@),
        ];
        let tail = seq![reload_run(), enable_run(), InstallStepView::Say("done"@)];
        lemma_plan_secures_copies(
            head,
            payload_dir,
            linux::HELPER_INSTALL_DIR@,
            linux::SYSTEMD_UNIT_PATH@,
            facts,
            mid,
            tail,
        );
    }
}

/// An upgrade stops the running service before it replaces any binary.
pub proof fn law_upgrade_stops_first(
    platform: Platform,
    payload_dir: Seq<char>,
    facts: InstallFacts,
    unit: Seq<char>,
)
    requires
        facts.registered,
    ensures
        planned(platform, payload_dir, facts, unit) matches Ok(plan) ==> stops_first(
            plan,
            if platform == Platform::MacOs {
                bootout_run()
            } else {
                disable_run()
            },
        ),
{
    let warnings = warning_steps(payload_dir, facts);
    let n = warnings.len() as int;
    if facts.helper && platform == Platform::MacOs {
        let plan = macos_steps(payload_dir, facts);
        assert(plan[n + 2] == bootout_run());
        assert(forall|j: int| 0 <= j < n ==> plan[j] == #[trigger] warnings[j]);
        assert forall|j: int| 0 <= j < plan.len() && (#[trigger] plan[j]) is Copy implies n + 2
            < j by {
            if j < n {
                assert(plan[j] == warnings[j]);
            }
        }
    } else if facts.helper && platform == Platform::Linux {
        let plan = linux_steps(payload_dir, facts, unit);
        assert(plan[n + 1] == disable_run());
        assert forall|j: int| 0 <= j < plan.len() && (#[trigger] plan[j]) is Copy implies n + 1
            < j by {
            if j < n {
                assert(plan[j] == warnings[j]);
            }
        }
    }
}

/// The service is registered once everything is in place: after its registration
/// only a last word is printed.
pub proof fn law_registration_comes_last(
    platform: Platform,
    payload_dir: Seq<char>,
    facts: InstallFacts,
    unit: Seq<char>,
)
    ensures
        planned(platform, payload_dir, facts, unit) matches Ok(plan) ==> {
            &&& plan.len() > 2
            &&& plan[plan.len() - 2] == if platform == Platform::MacOs {
                bootstrap_run()
            } else {
                enable_run()
            }
            &&& plan.last() == InstallStepView::Say("done"@)
        },
{
}

} // verus!
