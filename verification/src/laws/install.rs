//! Laws of installing and uninstalling.
use crate::install::{
    all_copies, all_secured, bootout_run, bootstrap_run, copy_steps, disable_run, enable_run,
    launchd_target, linux_steps, macos_steps, planned, plist_text, reload_run, run_verdict,
    secure_steps, warning_steps, InstallFacts, InstallRunView, InstallStepView, RunPolicy,
};
use crate::laws::supervisor::placed;
use crate::paths::{joined_path, linux, macos, Platform};
use crate::service::command::{CommandLineView, CommandOutcomeView};
use crate::text::decimal_digits;
use crate::uninstall::{
    summary_lines, uninstall_actions, uninstall_step, UninstallActionView, UninstallEventView,
    UninstallWorld,
};
use vstd::prelude::*;

verus! {

// ---------------------------------------------------------------------------
// The plan
// ---------------------------------------------------------------------------

/// Where the binaries go.
pub open spec fn home_of(platform: Platform) -> Seq<char> {
    if platform == Platform::MacOs {
        "/Library/PrivilegedHelperTools/com.scloud.helper"@
    } else {
        "/usr/lib/sc-helper"@
    }
}

/// Where the service definition goes.
pub open spec fn definition_of(platform: Platform) -> Seq<char> {
    if platform == Platform::MacOs {
        "/Library/LaunchDaemons/com.scloud.helper.plist"@
    } else {
        "/etc/systemd/system/sc-helper.service"@
    }
}

/// Whether `step` copies the binary `name` from the payload to where it goes.
pub open spec fn copies(
    platform: Platform,
    payload_dir: Seq<char>,
    name: Seq<char>,
    step: InstallStepView,
) -> bool {
    step == (InstallStepView::Copy {
        from: placed(payload_dir, name),
        to: placed(home_of(platform), name),
    })
}

/// Whether `step` gives the file at `path` its owner or the mode `mode`.
pub open spec fn secures(path: Seq<char>, mode: u32, step: InstallStepView) -> bool {
    step == InstallStepView::Own(path) || step == (InstallStepView::SetMode { path, mode })
}

/// A run of `program` with `args`.
pub open spec fn run_of(
    program: Seq<char>,
    args: Seq<Seq<char>>,
    policy: RunPolicy,
    name: Seq<char>,
    label: Seq<char>,
    done: Seq<char>,
) -> InstallStepView {
    InstallStepView::Run(
        InstallRunView { line: CommandLineView { program, args }, policy, name, label, done },
    )
}

/// The run that stops an installed service.
pub open spec fn stop_of(platform: Platform) -> InstallStepView {
    if platform == Platform::MacOs {
        run_of(
            "launchctl"@,
            seq!["bootout"@, "system/com.scloud.helper"@],
            RunPolicy::Ignore,
            "launchctl"@,
            "launchctl bootout"@,
            ""@,
        )
    } else {
        run_of(
            "systemctl"@,
            seq!["disable"@, "--now"@, "sc-helper"@],
            RunPolicy::Ignore,
            "systemctl disable --now"@,
            "systemctl disable --now"@,
            ""@,
        )
    }
}

/// The run that registers and starts the service.
pub open spec fn registration_of(platform: Platform) -> InstallStepView {
    if platform == Platform::MacOs {
        run_of(
            "launchctl"@,
            seq!["bootstrap"@, "system"@, "/Library/LaunchDaemons/com.scloud.helper.plist"@],
            RunPolicy::Warn,
            "launchctl"@,
            "launchctl bootstrap"@,
            "launchctl bootstrap OK"@,
        )
    } else {
        run_of(
            "systemctl"@,
            seq!["enable"@, "--now"@, "sc-helper"@],
            RunPolicy::Require,
            "systemctl enable --now"@,
            "systemctl enable --now sc-helper"@,
            "systemctl enable --now OK"@,
        )
    }
}

/// The run that makes systemd read its units anew.
pub open spec fn rereading() -> InstallStepView {
    run_of(
        "systemctl"@,
        seq!["daemon-reload"@],
        RunPolicy::Warn,
        "systemctl daemon-reload"@,
        "daemon-reload"@,
        ""@,
    )
}

/// The text of the service definition.
pub open spec fn definition_text(platform: Platform, unit: Seq<char>) -> Seq<char> {
    if platform == Platform::MacOs {
        plist_text(
            "com.scloud.helper"@,
            "/Library/PrivilegedHelperTools/com.scloud.helper/sc-helper"@,
            "/Library/Logs/sc-helper.log"@,
            "/Library/Logs/sc-helper.err.log"@,
        )
    } else {
        unit
    }
}

/// Whether an installation needs a step that does something.
pub open spec fn is_needed(
    platform: Platform,
    payload_dir: Seq<char>,
    facts: InstallFacts,
    unit: Seq<char>,
    step: InstallStepView,
) -> bool {
    let home = home_of(platform);
    ||| step == InstallStepView::MakeDir(home)
    ||| copies(platform, payload_dir, "sc-helper"@, step)
    ||| facts.mihomo && copies(platform, payload_dir, "sc-mihomo"@, step)
    ||| facts.ping && copies(platform, payload_dir, "sc-helper-ping"@, step)
    ||| step == (InstallStepView::Write {
        path: definition_of(platform),
        body: definition_text(platform, unit),
    })
    ||| secures(placed(home, "sc-helper"@), 0o755, step)
    ||| (facts.mihomo || facts.installed_mihomo) && secures(
        placed(home, "sc-mihomo"@),
        0o755,
        step,
    )
    ||| (facts.ping || facts.installed_ping) && secures(
        placed(home, "sc-helper-ping"@),
        0o755,
        step,
    )
    ||| secures(definition_of(platform), 0o644, step)
    ||| facts.registered && step == stop_of(platform)
    ||| platform == Platform::Linux && step == rereading()
    ||| step == registration_of(platform)
}

proof fn lemma_concat<A>(a: Seq<A>, b: Seq<A>, x: A)
    ensures
        (a + b).contains(x) <==> a.contains(x) || b.contains(x),
{
    let s = a + b;
    if a.contains(x) {
        let i = choose|i: int| 0 <= i < a.len() && a[i] == x;
        assert(s[i] == x);
    }
    if b.contains(x) {
        let i = choose|i: int| 0 <= i < b.len() && b[i] == x;
        assert(s[a.len() + i] == x);
    }
    if s.contains(x) {
        let i = choose|i: int| 0 <= i < s.len() && s[i] == x;
        if i < a.len() {
            assert(a[i] == x);
        } else {
            assert(b[i - a.len()] == x);
        }
    }
}

proof fn lemma_one<A>(a: A, x: A)
    ensures
        seq![a].contains(x) <==> x == a,
{
    assert(seq![a][0] == a);
}

proof fn lemma_two<A>(a: A, b: A, x: A)
    ensures
        seq![a, b].contains(x) <==> x == a || x == b,
{
    assert(seq![a, b][0] == a);
    assert(seq![a, b][1] == b);
}

proof fn lemma_names_are_relative(dir: Seq<char>)
    ensures
        joined_path(dir, "sc-helper"@) == placed(dir, "sc-helper"@),
        joined_path(dir, "sc-mihomo"@) == placed(dir, "sc-mihomo"@),
        joined_path(dir, "sc-helper-ping"@) == placed(dir, "sc-helper-ping"@),
{
    reveal_strlit("sc-helper");
    reveal_strlit("sc-mihomo");
    reveal_strlit("sc-helper-ping");
}

proof fn lemma_warnings_only_talk(
    payload_dir: Seq<char>,
    facts: InstallFacts,
    step: InstallStepView,
)
    requires
        !(step is Say),
    ensures
        !warning_steps(payload_dir, facts).contains(step),
{
}

proof fn lemma_copy_steps(
    present: bool,
    payload_dir: Seq<char>,
    home: Seq<char>,
    name: Seq<char>,
    step: InstallStepView,
)
    requires
        !(step is Say),
    ensures
        copy_steps(present, payload_dir, home, name).contains(step) <==> present && step == (
        InstallStepView::Copy {
            from: joined_path(payload_dir, name),
            to: joined_path(home, name),
        }),
{
    let copy = InstallStepView::Copy {
        from: joined_path(payload_dir, name),
        to: joined_path(home, name),
    };
    lemma_two(copy, InstallStepView::Say("copied "@ + name), step);
}

proof fn lemma_copies(
    payload_dir: Seq<char>,
    platform: Platform,
    facts: InstallFacts,
    step: InstallStepView,
)
    requires
        !(step is Say),
    ensures
        all_copies(payload_dir, home_of(platform), facts).contains(step) <==> (copies(
            platform,
            payload_dir,
            "sc-helper"@,
            step,
        ) || facts.mihomo && copies(platform, payload_dir, "sc-mihomo"@, step) || facts.ping
            && copies(platform, payload_dir, "sc-helper-ping"@, step)),
{
    let home = home_of(platform);
    lemma_names_are_relative(payload_dir);
    lemma_names_are_relative(home);
    let a = copy_steps(true, payload_dir, home, "sc-helper"@);
    let b = copy_steps(facts.mihomo, payload_dir, home, "sc-mihomo"@);
    let c = copy_steps(facts.ping, payload_dir, home, "sc-helper-ping"@);
    lemma_copy_steps(true, payload_dir, home, "sc-helper"@, step);
    lemma_copy_steps(facts.mihomo, payload_dir, home, "sc-mihomo"@, step);
    lemma_copy_steps(facts.ping, payload_dir, home, "sc-helper-ping"@, step);
    lemma_concat(a, b, step);
    lemma_concat(a + b, c, step);
}

proof fn lemma_secure_steps(present: bool, path: Seq<char>, mode: u32, step: InstallStepView)
    ensures
        secure_steps(present, path, mode).contains(step) <==> present && secures(path, mode, step),
{
    lemma_two(InstallStepView::Own(path), InstallStepView::SetMode { path, mode }, step);
}

proof fn lemma_secured(platform: Platform, facts: InstallFacts, step: InstallStepView)
    requires
        !(step is Say),
    ensures
        ({
            let home = home_of(platform);
            all_secured(home, definition_of(platform), facts).contains(step) <==> (secures(
                placed(home, "sc-helper"@),
                0o755,
                step,
            ) || (facts.mihomo || facts.installed_mihomo) && secures(
                placed(home, "sc-mihomo"@),
                0o755,
                step,
            ) || (facts.ping || facts.installed_ping) && secures(
                placed(home, "sc-helper-ping"@),
                0o755,
                step,
            ) || secures(definition_of(platform), 0o644, step))
        }),
{
    let home = home_of(platform);
    lemma_names_are_relative(home);
    let m = facts.mihomo || facts.installed_mihomo;
    let p = facts.ping || facts.installed_ping;
    let a = secure_steps(true, placed(home, "sc-helper"@), 0o755);
    let b = secure_steps(m, placed(home, "sc-mihomo"@), 0o755);
    let c = secure_steps(p, placed(home, "sc-helper-ping"@), 0o755);
    let d = secure_steps(true, definition_of(platform), 0o644);
    let e = seq![InstallStepView::Say("perms set"@)];
    lemma_secure_steps(true, placed(home, "sc-helper"@), 0o755, step);
    lemma_secure_steps(m, placed(home, "sc-mihomo"@), 0o755, step);
    lemma_secure_steps(p, placed(home, "sc-helper-ping"@), 0o755, step);
    lemma_secure_steps(true, definition_of(platform), 0o644, step);
    lemma_concat(a, b, step);
    lemma_concat(a + b, c, step);
    lemma_concat(a + b + c, d, step);
    lemma_concat(a + b + c + d, e, step);
    lemma_one(InstallStepView::Say("perms set"@), step);
}

proof fn lemma_runs()
    ensures
        bootout_run() == stop_of(Platform::MacOs),
        disable_run() == stop_of(Platform::Linux),
        bootstrap_run() == registration_of(Platform::MacOs),
        enable_run() == registration_of(Platform::Linux),
        reload_run() == rereading(),
        launchd_target() == "system/com.scloud.helper"@,
{
    reveal_strlit("system/");
    reveal_strlit("com.scloud.helper");
    reveal_strlit("system/com.scloud.helper");
    assert(launchd_target() =~= "system/com.scloud.helper"@);
    reveal_strlit("systemctl enable --now ");
    reveal_strlit("sc-helper");
    reveal_strlit("systemctl enable --now sc-helper");
    assert("systemctl enable --now "@ + "sc-helper"@ =~= "systemctl enable --now sc-helper"@);
}

/// What an installation does, apart from talking, is exactly what is needed: the
/// directory is made; each binary that stands next to the installer is copied
/// under its own name, whether or not the service was registered before, and no
/// other; the definition is written; the owner and the mode of the definition and
/// of every binary that is then there are set; a registered service is stopped;
/// and the service is registered.
pub proof fn law_plan_does_what_is_needed(
    platform: Platform,
    payload_dir: Seq<char>,
    facts: InstallFacts,
    unit: Seq<char>,
    step: InstallStepView,
)
    requires
        !(step is Say),
    ensures
        planned(platform, payload_dir, facts, unit) matches Ok(plan) ==> (plan.contains(step)
            <==> is_needed(platform, payload_dir, facts, unit, step)),
{
    lemma_runs();
    lemma_warnings_only_talk(payload_dir, facts, step);
    lemma_copies(payload_dir, platform, facts, step);
    lemma_secured(platform, facts, step);
    let a = warning_steps(payload_dir, facts);
    let copied = all_copies(payload_dir, home_of(platform), facts);
    let secured = all_secured(home_of(platform), definition_of(platform), facts);
    let mkdir = seq![InstallStepView::MakeDir(home_of(platform))];
    lemma_one(InstallStepView::MakeDir(home_of(platform)), step);
    let write = InstallStepView::Write {
        path: definition_of(platform),
        body: definition_text(platform, unit),
    };
    if platform == Platform::MacOs {
        let told = InstallStepView::Say("existing install detected — bootout first"@);
        let stopped = crate::install::when(facts.registered, seq![told, bootout_run()]);
        lemma_two(told, bootout_run(), step);
        let wrote = seq![write, InstallStepView::Say("wrote plist"@)];
        lemma_two(write, InstallStepView::Say("wrote plist"@), step);
        let last = seq![bootstrap_run(), InstallStepView::Say("done"@)];
        lemma_two(bootstrap_run(), InstallStepView::Say("done"@), step);
        lemma_concat(a, mkdir, step);
        lemma_concat(a + mkdir, stopped, step);
        lemma_concat(a + mkdir + stopped, copied, step);
        lemma_concat(a + mkdir + stopped + copied, wrote, step);
        lemma_concat(a + mkdir + stopped + copied + wrote, secured, step);
        lemma_concat(a + mkdir + stopped + copied + wrote + secured, last, step);
        assert(macos_steps(payload_dir, facts) == a + mkdir + stopped + copied + wrote + secured
            + last);
    } else if platform == Platform::Linux {
        let told = InstallStepView::Say("existing install detected — stop + disable first"@);
        let stopped = crate::install::when(facts.registered, seq![told, disable_run()]);
        lemma_two(told, disable_run(), step);
        let wrote = seq![write, InstallStepView::Say("wrote systemd unit"@)];
        lemma_two(write, InstallStepView::Say("wrote systemd unit"@), step);
        let last = seq![reload_run(), enable_run(), InstallStepView::Say("done"@)];
        assert(last[0] == reload_run() && last[1] == enable_run());
        lemma_concat(a, stopped, step);
        lemma_concat(a + stopped, mkdir, step);
        lemma_concat(a + stopped + mkdir, copied, step);
        lemma_concat(a + stopped + mkdir + copied, wrote, step);
        lemma_concat(a + stopped + mkdir + copied + wrote, secured, step);
        lemma_concat(a + stopped + mkdir + copied + wrote + secured, last, step);
        assert(linux_steps(payload_dir, facts, unit) == a + stopped + mkdir + copied + wrote
            + secured + last);
    }
}

/// When in an installation a step comes: what makes room, the copies, the
/// definition, owners and modes, the registration.
pub open spec fn rank(step: InstallStepView) -> int {
    match step {
        InstallStepView::MakeDir(_) => 0,
        InstallStepView::Copy { .. } => 1,
        InstallStepView::Write { .. } => 2,
        InstallStepView::Own(_) => 3,
        InstallStepView::SetMode { .. } => 3,
        InstallStepView::Run(run) => if run.policy == RunPolicy::Ignore {
            0
        } else {
            4
        },
        InstallStepView::Say(_) => -1,
    }
}

/// Whether the steps of a plan come in the order of their ranks, all of them
/// between `low` and `high`.
pub open spec fn in_order(plan: Seq<InstallStepView>, low: int, high: int) -> bool {
    &&& forall|i: int|
        0 <= i < plan.len() && !(#[trigger] plan[i] is Say) ==> low <= rank(plan[i]) <= high
    &&& forall|i: int, j: int|
        0 <= i < j < plan.len() && !(#[trigger] plan[i] is Say) && !(#[trigger] plan[j] is Say)
            ==> rank(plan[i]) <= rank(plan[j])
}

proof fn lemma_order_concat(
    a: Seq<InstallStepView>,
    b: Seq<InstallStepView>,
    low: int,
    mid: int,
    high: int,
)
    requires
        low <= mid <= high,
        in_order(a, low, mid),
        in_order(b, mid, high),
    ensures
        in_order(a + b, low, high),
{
    let s = a + b;
    assert forall|i: int| 0 <= i < s.len() && !(#[trigger] s[i] is Say) implies low <= rank(s[i])
        <= high by {
        if i < a.len() {
            assert(s[i] == a[i]);
        } else {
            assert(s[i] == b[i - a.len()]);
        }
    }
    assert forall|i: int, j: int|
        0 <= i < j < s.len() && !(#[trigger] s[i] is Say) && !(
        #[trigger] s[j] is Say) implies rank(s[i]) <= rank(s[j]) by {
        if j < a.len() {
            assert(s[i] == a[i] && s[j] == a[j]);
        } else if i < a.len() {
            assert(s[i] == a[i] && s[j] == b[j - a.len()]);
        } else {
            assert(s[i] == b[i - a.len()] && s[j] == b[j - a.len()]);
        }
    }
}

/// An installation makes room, copies, writes the definition, sets owners and
/// modes and registers, in this order: where it stops, nothing that comes later has
/// been done.
pub proof fn law_plan_order(
    platform: Platform,
    payload_dir: Seq<char>,
    facts: InstallFacts,
    unit: Seq<char>,
)
    ensures
        planned(platform, payload_dir, facts, unit) matches Ok(plan) ==> in_order(plan, 0, 4),
{
    let a = warning_steps(payload_dir, facts);
    let home = if platform == Platform::MacOs {
        macos::HELPER_INSTALL_DIR@
    } else {
        linux::HELPER_INSTALL_DIR@
    };
    let definition = if platform == Platform::MacOs {
        macos::LAUNCHD_PLIST@
    } else {
        linux::SYSTEMD_UNIT_PATH@
    };
    let copied = all_copies(payload_dir, home, facts);
    let secured = all_secured(home, definition, facts);
    let mkdir = seq![InstallStepView::MakeDir(home)];
    assert(in_order(a, 0, 0));
    assert(in_order(mkdir, 0, 0));
    assert(in_order(copied, 1, 1));
    assert(in_order(secured, 3, 3));
    if facts.helper && platform == Platform::MacOs {
        let stopped = crate::install::when(
            facts.registered,
            seq![
                InstallStepView::Say("existing install detected — bootout first"@),
                bootout_run(),
            ],
        );
        let wrote = seq![
            InstallStepView::Write {
                path: definition,
                body: plist_text(
                    macos::LAUNCHD_LABEL@,
                    macos::HELPER_BINARY@,
                    macos::STDOUT_LOG@,
                    macos::STDERR_LOG@,
                ),
            },
            InstallStepView::Say("wrote plist"@),
        ];
        let last = seq![bootstrap_run(), InstallStepView::Say("done"@)];
        assert(in_order(stopped, 0, 0));
        lemma_order_concat(a, mkdir, 0, 0, 0);
        lemma_order_concat(a + mkdir, stopped, 0, 0, 0);
        assert(in_order(a + mkdir + stopped, 0, 1));
        lemma_order_concat(a + mkdir + stopped, copied, 0, 1, 1);
        lemma_order_rest(a + mkdir + stopped + copied, wrote, secured, last);
    } else if facts.helper && platform == Platform::Linux {
        let stopped = crate::install::when(
            facts.registered,
            seq![
                InstallStepView::Say("existing install detected — stop + disable first"@),
                disable_run(),
            ],
        );
        let wrote = seq![
            InstallStepView::Write { path: definition, body: unit },
            InstallStepView::Say("wrote systemd unit"@),
        ];
        let last = seq![reload_run(), enable_run(), InstallStepView::Say("done"@)];
        assert(in_order(stopped, 0, 0));
        lemma_order_concat(a, stopped, 0, 0, 0);
        lemma_order_concat(a + stopped, mkdir, 0, 0, 0);
        assert(in_order(a + stopped + mkdir, 0, 1));
        lemma_order_concat(a + stopped + mkdir, copied, 0, 1, 1);
        lemma_order_rest(a + stopped + mkdir + copied, wrote, secured, last);
    }
}

proof fn lemma_order_rest(
    head: Seq<InstallStepView>,
    wrote: Seq<InstallStepView>,
    secured: Seq<InstallStepView>,
    last: Seq<InstallStepView>,
)
    requires
        in_order(head, 0, 1),
        in_order(wrote, 2, 2),
        in_order(secured, 3, 3),
        in_order(last, 4, 4),
    ensures
        in_order(head + wrote + secured + last, 0, 4),
{
    assert(in_order(head, 0, 2));
    lemma_order_concat(head, wrote, 0, 2, 2);
    assert(in_order(head + wrote, 0, 3));
    lemma_order_concat(head + wrote, secured, 0, 3, 3);
    assert(in_order(head + wrote + secured, 0, 4));
    lemma_order_concat(head + wrote + secured, last, 0, 4, 4);
}

/// How many steps an installation has, and that none is taken twice for nothing:
/// with each binary come a copy and its word, with each file to be secured its
/// owner and its mode, with each binary that is missing a warning.
pub proof fn law_plan_length(
    platform: Platform,
    payload_dir: Seq<char>,
    facts: InstallFacts,
    unit: Seq<char>,
)
    ensures
        planned(platform, payload_dir, facts, unit) matches Ok(plan) ==> plan.len() == (
        if platform == Platform::MacOs {
            12int
        } else {
            13
        }) + (if facts.mihomo {
            2int
        } else {
            1
        }) + (if facts.ping {
            2int
        } else {
            1
        }) + (if facts.registered {
            2int
        } else {
            0
        }) + (if facts.mihomo || facts.installed_mihomo {
            2int
        } else {
            0
        }) + (if facts.ping || facts.installed_ping {
            2int
        } else {
            0
        }),
{
}

proof fn lemma_parts_are_in_the_plan(
    platform: Platform,
    payload_dir: Seq<char>,
    facts: InstallFacts,
    unit: Seq<char>,
    step: InstallStepView,
)
    requires
        warning_steps(payload_dir, facts).contains(step) || all_copies(
            payload_dir,
            home_of(platform),
            facts,
        ).contains(step) || all_secured(
            home_of(platform),
            definition_of(platform),
            facts,
        ).contains(step),
    ensures
        planned(platform, payload_dir, facts, unit) matches Ok(plan) ==> plan.contains(step),
        planned(platform, payload_dir, facts, unit) matches Ok(plan) ==> plan.last()
            == InstallStepView::Say("done"@),
{
    let a = warning_steps(payload_dir, facts);
    let copied = all_copies(payload_dir, home_of(platform), facts);
    let secured = all_secured(home_of(platform), definition_of(platform), facts);
    let mkdir = seq![InstallStepView::MakeDir(home_of(platform))];
    let write = InstallStepView::Write {
        path: definition_of(platform),
        body: definition_text(platform, unit),
    };
    if platform == Platform::MacOs {
        let stopped = crate::install::when(
            facts.registered,
            seq![
                InstallStepView::Say("existing install detected — bootout first"@),
                bootout_run(),
            ],
        );
        let wrote = seq![write, InstallStepView::Say("wrote plist"@)];
        let last = seq![bootstrap_run(), InstallStepView::Say("done"@)];
        lemma_concat(a, mkdir, step);
        lemma_concat(a + mkdir, stopped, step);
        lemma_concat(a + mkdir + stopped, copied, step);
        lemma_concat(a + mkdir + stopped + copied, wrote, step);
        lemma_concat(a + mkdir + stopped + copied + wrote, secured, step);
        lemma_concat(a + mkdir + stopped + copied + wrote + secured, last, step);
    } else if platform == Platform::Linux {
        let stopped = crate::install::when(
            facts.registered,
            seq![
                InstallStepView::Say("existing install detected — stop + disable first"@),
                disable_run(),
            ],
        );
        let wrote = seq![write, InstallStepView::Say("wrote systemd unit"@)];
        let last = seq![reload_run(), enable_run(), InstallStepView::Say("done"@)];
        lemma_concat(a, stopped, step);
        lemma_concat(a + stopped, mkdir, step);
        lemma_concat(a + stopped + mkdir, copied, step);
        lemma_concat(a + stopped + mkdir + copied, wrote, step);
        lemma_concat(a + stopped + mkdir + copied + wrote, secured, step);
        lemma_concat(a + stopped + mkdir + copied + wrote + secured, last, step);
    }
}

/// What an installation says: that each binary was copied which is, that each is
/// missing which is, and what became of the rest.
pub proof fn law_plan_says_what_it_does(
    platform: Platform,
    payload_dir: Seq<char>,
    facts: InstallFacts,
    unit: Seq<char>,
)
    ensures
        planned(platform, payload_dir, facts, unit) matches Ok(plan) ==> {
            &&& plan.contains(InstallStepView::Say("copied "@ + "sc-helper"@))
            &&& facts.mihomo ==> plan.contains(InstallStepView::Say("copied "@ + "sc-mihomo"@))
            &&& facts.ping ==> plan.contains(InstallStepView::Say("copied "@ + "sc-helper-ping"@))
            &&& !facts.mihomo ==> plan.contains(
                InstallStepView::Say(
                    "WARN: sc-mihomo missing at "@ + placed(payload_dir, "sc-mihomo"@)
                        + "; helper will start but StartMihomo will fail until it's added"@,
                ),
            )
            &&& !facts.ping ==> plan.contains(
                InstallStepView::Say(
                    "WARN: sc-helper-ping missing at "@ + placed(payload_dir, "sc-helper-ping"@)
                        + "; support diagnostics will be unavailable"@,
                ),
            )
            &&& plan.contains(InstallStepView::Say("perms set"@))
            &&& plan.last() == InstallStepView::Say("done"@)
        },
{
    lemma_names_are_relative(payload_dir);
    let home = home_of(platform);
    let warnings = warning_steps(payload_dir, facts);
    let helper = copy_steps(true, payload_dir, home, "sc-helper"@);
    let mihomo = copy_steps(facts.mihomo, payload_dir, home, "sc-mihomo"@);
    let ping = copy_steps(facts.ping, payload_dir, home, "sc-helper-ping"@);
    let secured = all_secured(home, definition_of(platform), facts);
    let helper_said = InstallStepView::Say("copied "@ + "sc-helper"@);
    let mihomo_said = InstallStepView::Say("copied "@ + "sc-mihomo"@);
    let ping_said = InstallStepView::Say("copied "@ + "sc-helper-ping"@);
    let perms_said = InstallStepView::Say("perms set"@);
    assert(helper[1] == helper_said);
    lemma_concat(helper, mihomo, helper_said);
    lemma_concat(helper + mihomo, ping, helper_said);
    lemma_parts_are_in_the_plan(platform, payload_dir, facts, unit, helper_said);
    if facts.mihomo {
        assert(mihomo[1] == mihomo_said);
        lemma_concat(helper, mihomo, mihomo_said);
        lemma_concat(helper + mihomo, ping, mihomo_said);
        lemma_parts_are_in_the_plan(platform, payload_dir, facts, unit, mihomo_said);
    } else {
        lemma_parts_are_in_the_plan(platform, payload_dir, facts, unit, warnings[0]);
    }
    if facts.ping {
        assert(ping[1] == ping_said);
        lemma_concat(helper + mihomo, ping, ping_said);
        lemma_parts_are_in_the_plan(platform, payload_dir, facts, unit, ping_said);
    } else {
        lemma_parts_are_in_the_plan(
            platform,
            payload_dir,
            facts,
            unit,
            warnings[warnings.len() - 1],
        );
    }
    assert(secured.last() == perms_said);
    lemma_parts_are_in_the_plan(platform, payload_dir, facts, unit, perms_said);
}

/// There is a plan exactly if the helper stands next to the installer on a system
/// that has an installer; else the error says which of the two is wrong.
pub proof fn law_plan_exists(
    platform: Platform,
    payload_dir: Seq<char>,
    facts: InstallFacts,
    unit: Seq<char>,
)
    ensures
        match planned(platform, payload_dir, facts, unit) {
            Ok(_) => platform != Platform::Windows && facts.helper,
            Err(message) => if platform == Platform::Windows {
                message
                    == "sc-helper-install: not yet implemented on this OS. Windows installer comes in phase 3."@
            } else {
                !facts.helper && message == "expected sibling binary sc-helper at "@ + placed(
                    payload_dir,
                    "sc-helper"@,
                )
            },
        },
{
    lemma_names_are_relative(payload_dir);
}

/// A run that does not matter is never spoken of. Any other that could not be
/// started ends the installation; one that reports success has its word, if there
/// is one; one that reports failure is a warning or the end, as its policy has it.
pub proof fn law_runs_are_judged(
    run: InstallRunView,
    status: Seq<char>,
    stdout: Seq<u8>,
    stderr: Seq<u8>,
    error: Seq<char>,
)
    ensures
        ({
            let not_started = run_verdict(run, CommandOutcomeView::NotStarted { error });
            let well = run_verdict(
                run,
                CommandOutcomeView::Finished { success: true, status, stdout, stderr },
            );
            let badly = run_verdict(
                run,
                CommandOutcomeView::Finished { success: false, status, stdout, stderr },
            );
            let silent = Ok::<Option<Seq<char>>, Seq<char>>(None);
            match run.policy {
                RunPolicy::Ignore => not_started == silent && well == silent && badly == silent,
                _ => {
                    &&& not_started == Err::<Option<Seq<char>>, _>(
                        "spawning "@ + run.name + ": "@ + error,
                    )
                    &&& well == if run.done.len() > 0 {
                        Ok::<_, Seq<char>>(Some(run.done))
                    } else {
                        silent
                    }
                    &&& badly == if run.policy == RunPolicy::Warn {
                        Ok::<_, Seq<char>>(Some("WARN: "@ + run.label + " exited "@ + status))
                    } else {
                        Err(run.label + " failed: exit "@ + status)
                    }
                },
            }
        }),
{
}

// ---------------------------------------------------------------------------
// The removal
// ---------------------------------------------------------------------------

/// `items` if `condition` holds.
pub open spec fn only_if<A>(condition: bool, items: Seq<A>) -> Seq<A> {
    if condition {
        items
    } else {
        Seq::empty()
    }
}

/// What an uninstallation does: it asks the helper to shut down, boots it out, and
/// then looks for the property list, the install directory and the socket, in this
/// order, and removes each that is there. No failure on the way changes any of it.
pub proof fn law_removal(notes: Seq<Seq<char>>, world: UninstallWorld)
    ensures
        ({
            let plist = "/Library/LaunchDaemons/com.scloud.helper.plist"@;
            let dir = "/Library/PrivilegedHelperTools/com.scloud.helper"@;
            let socket = "/var/run/sc-helper.sock"@;
            uninstall_actions(notes, UninstallEventView::Begin, world, 9) == seq![
                UninstallActionView::AskShutdown,
                UninstallActionView::Run(
                    CommandLineView {
                        program: "launchctl"@,
                        args: seq!["bootout"@, "system/com.scloud.helper"@],
                    },
                ),
                UninstallActionView::CheckPlist(plist),
            ] + only_if(world.plist, seq![UninstallActionView::RemovePlist(plist)]) + seq![
                UninstallActionView::CheckDir(dir),
            ] + only_if(world.dir, seq![UninstallActionView::RemoveDir(dir)]) + seq![
                UninstallActionView::CheckSocket(socket),
            ] + only_if(world.socket, seq![UninstallActionView::RemoveSocket(socket)]) + seq![
                UninstallActionView::Done,
            ]
        }),
{
    lemma_runs();
    reveal_with_fuel(uninstall_actions, 10);
}

/// What an uninstallation notes and prints on the way: a failure is noted with the
/// system's words and not printed yet, something removed is printed, and a bootout
/// that reports failure is printed with its status. Nothing else adds a note.
pub proof fn law_removal_notes(
    notes: Seq<Seq<char>>,
    event: UninstallEventView,
)
    ensures
        ({
            let step = uninstall_step(notes, event);
            let noted = |what: Seq<char>| step.notes == notes.push(what) && step.lines.len() == 0;
            let printed = |what: Seq<char>| step.notes == notes && step.lines == seq![what];
            match event {
                UninstallEventView::BootedOut(CommandOutcomeView::NotStarted { error }) => noted(
                    "bootout: "@ + error,
                ),
                UninstallEventView::BootedOut(
                    CommandOutcomeView::Finished { success, status, stdout, stderr },
                ) => printed(
                    if success {
                        "bootout OK"@
                    } else {
                        "bootout exited "@ + status + " (likely already stopped)"@
                    },
                ),
                UninstallEventView::PlistRemoved(Err(error)) => noted("rm plist: "@ + error),
                UninstallEventView::PlistRemoved(Ok(_)) => printed("removed plist"@),
                UninstallEventView::DirRemoved(Err(error)) => noted("rm install dir: "@ + error),
                UninstallEventView::DirRemoved(Ok(_)) => printed("removed install dir"@),
                UninstallEventView::SocketRemoved => step.notes == notes && step.lines
                    == summary_lines(notes),
                UninstallEventView::SocketChecked(false) => step.notes == notes && step.lines
                    == summary_lines(notes),
                _ => step.notes == notes && step.lines.len() == 0,
            }
        }),
{
}

/// What is printed at the end: that it is done, or every note in order as a warning
/// and then how many there are.
pub proof fn law_removal_summary(notes: Seq<Seq<char>>, i: int)
    requires
        0 <= i < notes.len(),
    ensures
        summary_lines(Seq::empty()) == seq!["done"@],
        summary_lines(notes).len() == notes.len() + 1,
        summary_lines(notes)[i] == "WARN: "@ + notes[i],
        summary_lines(notes).last() == "done with "@ + decimal_digits(notes.len())
            + " warning(s)"@,
{
}

} // verus!
