//! Laws of starting and stopping mihomo.
use crate::paths::{law_inside_is_below, stays_inside};
use crate::service::supervisor::{
    held_after, is_patient, law_stop, runs, start_error_text, start_run, start_step, stop_run,
    stop_step, ChildStatusView, MihomoStartConfigView, Poll, StartActionView, StartErrorView,
    StartEventView, StartWorld, StopActionView, StopEventView, StopRun,
};
use vstd::prelude::*;

verus! {

/// The directory, a separator unless the directory is empty or ends in one, and
/// the name.
pub open spec fn placed(dir: Seq<char>, name: Seq<char>) -> Seq<char> {
    if dir.len() == 0 || dir.last() == '/' {
        dir + name
    } else {
        dir + seq!['/'] + name
    }
}

/// Everything that a start looks at or runs is what was asked for, character for
/// character: the helper's binary, the config directory, the config file in it
/// and the log file. What is spawned is the binary with exactly four arguments,
/// `-d`, the directory, `-f` and the file.
pub proof fn law_start_uses_what_was_asked_for(
    child: Option<u32>,
    cfg: MihomoStartConfigView,
    event: StartEventView,
)
    ensures
        match start_step(child, cfg, event).1 {
            StartActionView::CheckBinary(path) => path == cfg.mihomo_path,
            StartActionView::CheckConfigDir(path) => path == cfg.config_dir,
            StartActionView::CheckConfigFile(path) => {
                &&& stays_inside(cfg.config_dir, cfg.config_file)
                &&& path == placed(cfg.config_dir, cfg.config_file)
            },
            StartActionView::OpenLog(path) => path == cfg.log_file,
            StartActionView::Spawn(line) => {
                &&& stays_inside(cfg.config_dir, cfg.config_file)
                &&& line.program == cfg.mihomo_path
                &&& line.args.len() == 4
                &&& line.args[0] == "-d"@
                &&& line.args[1] == cfg.config_dir
                &&& line.args[2] == "-f"@
                &&& line.args[3] == placed(cfg.config_dir, cfg.config_file)
            },
            _ => true,
        },
{
    if stays_inside(cfg.config_dir, cfg.config_file) {
        law_inside_is_below(cfg.config_dir, cfg.config_file);
    }
}

/// A child is held until a look finds it not alive, and a new one is held once it
/// is spawned with a process id; nothing else on the way to a running mihomo
/// changes which child is held.
pub proof fn law_start_keeps_the_child(
    child: Option<u32>,
    cfg: MihomoStartConfigView,
    event: StartEventView,
)
    ensures
        start_step(child, cfg, event).0 == match event {
            StartEventView::Child(ChildStatusView::Alive) => child,
            StartEventView::Child(_) => None,
            StartEventView::Spawned(Ok(Some(pid))) => Some(pid),
            _ => child,
        },
{
}

/// mihomo runs exactly if there is a child and a look finds it alive; a child that
/// a look does not find alive is given up.
pub proof fn law_running(child: Option<u32>, status: ChildStatusView)
    ensures
        runs(child, status) <==> child.is_some() && status == ChildStatusView::Alive,
        held_after(child, status) == if status == ChildStatusView::Alive {
            child
        } else {
            None
        },
{
}

/// How a start ends, whatever the system answers. It is refused if mihomo runs; if
/// not, each thing that is missing is named, the first of them in the order binary,
/// directory, name of the file, file, log; and only with none missing is mihomo
/// spawned, once. It succeeds exactly with the process id of that spawn, which is
/// then held.
pub proof fn law_start_outcome(
    child: Option<u32>,
    cfg: MihomoStartConfigView,
    world: StartWorld,
)
    ensures
        ({
            let run = start_run(child, cfg, StartEventView::Begin, world, 8);
            let inside = stays_inside(cfg.config_dir, cfg.config_file);
            let running = child.is_some() && world.status == ChildStatusView::Alive;
            let found = world.binary && world.config_dir && inside && world.config_file;
            let logged = world.log_opened is Ok && world.log_cloned is Ok;
            let spawns = !running && found && logged;
            &&& run.result is Some
            &&& run.spawned.len() == if spawns {
                1int
            } else {
                0
            }
            &&& spawns ==> run.spawned[0].program == cfg.mihomo_path && run.spawned[0].args
                =~= seq!["-d"@, cfg.config_dir, "-f"@, placed(cfg.config_dir, cfg.config_file)]
            &&& run.child == if running {
                child
            } else if spawns && world.spawned is Ok {
                world.spawned->Ok_0
            } else {
                None
            }
            &&& match run.result->0 {
                Ok(pid) => spawns && world.spawned == Ok::<_, Seq<char>>(Some(pid)),
                Err(StartErrorView::AlreadyRunning) => running,
                Err(StartErrorView::BinaryNotFound(path)) => !running && !world.binary && path
                    == cfg.mihomo_path,
                Err(StartErrorView::ConfigDirNotFound(path)) => !running && world.binary
                    && !world.config_dir && path == cfg.config_dir,
                Err(StartErrorView::ConfigFileOutside(name)) => !running && world.binary
                    && world.config_dir && !inside && name == cfg.config_file,
                Err(StartErrorView::ConfigFileNotFound(path)) => !running && world.binary
                    && world.config_dir && inside && !world.config_file && path == placed(
                    cfg.config_dir,
                    cfg.config_file,
                ),
                Err(StartErrorView::LogNotOpened { path, error }) => !running && found && path
                    == cfg.log_file && world.log_opened == Err::<(), _>(error),
                Err(StartErrorView::LogNotCloned(error)) => !running && found
                    && world.log_opened is Ok && world.log_cloned == Err::<(), _>(error),
                Err(StartErrorView::NotSpawned(error)) => spawns && world.spawned == Err::<
                    Option<u32>,
                    _,
                >(error),
                Err(StartErrorView::NoPid) => spawns && world.spawned == Ok::<_, Seq<char>>(
                    None::<u32>,
                ),
            }
        }),
{
    reveal_with_fuel(start_run, 9);
    if stays_inside(cfg.config_dir, cfg.config_file) {
        law_inside_is_below(cfg.config_dir, cfg.config_file);
    }
}

/// The text of a start error is a phrase for what went wrong and then, as they
/// are, the path that it is about and the system's words.
pub proof fn law_start_error_text(a: Seq<char>, b: Seq<char>)
    ensures
        start_error_text(StartErrorView::AlreadyRunning) == "mihomo already running"@,
        start_error_text(StartErrorView::BinaryNotFound(a)) == "mihomo binary not found at "@ + a,
        start_error_text(StartErrorView::ConfigDirNotFound(a)) == "config_dir not a directory: "@
            + a,
        start_error_text(StartErrorView::ConfigFileOutside(a))
            == "config file not inside config_dir: "@ + a,
        start_error_text(StartErrorView::ConfigFileNotFound(a)) == "config file not found: "@ + a,
        start_error_text(StartErrorView::LogNotOpened { path: a, error: b })
            == "opening log file "@ + a + ": "@ + b,
        start_error_text(StartErrorView::LogNotCloned(b))
            == "cloning log file handle for stderr: "@ + b,
        start_error_text(StartErrorView::NotSpawned(b)) == "spawning mihomo: "@ + b,
        start_error_text(StartErrorView::NoPid) == "spawned mihomo has no pid"@,
{
}

/// One step of a stop: the child that is held is signalled and given up, and with
/// none there is nothing to do. After a look, a child that is gone ends the stop
/// and a look that failed ends it with the system's words; a child that is alive
/// is killed exactly if five seconds have passed, and else looked at again a tenth
/// of a second later.
pub proof fn law_stop_step(
    child: Option<u32>,
    pid: u32,
    error: Seq<char>,
    waited_millis: u64,
)
    ensures
        stop_step(Some(pid), StopEventView::Begin) == (None::<u32>, StopActionView::Terminate(pid)),
        stop_step(None, StopEventView::Begin) == (None::<u32>, StopActionView::Done(Ok(()))),
        stop_step(
            child,
            StopEventView::Polled { status: ChildStatusView::Exited, waited_millis },
        ) == (child, StopActionView::Done(Ok(()))),
        stop_step(
            child,
            StopEventView::Polled { status: ChildStatusView::Failed(error), waited_millis },
        ) == (child, StopActionView::Done(Err(error))),
        waited_millis >= 5000 ==> stop_step(
            child,
            StopEventView::Polled { status: ChildStatusView::Alive, waited_millis },
        ) == (child, StopActionView::Kill),
        waited_millis < 5000 ==> stop_step(
            child,
            StopEventView::Polled { status: ChildStatusView::Alive, waited_millis },
        ) == (child, StopActionView::Sleep(100)),
        stop_step(child, StopEventView::Killed) == (child, StopActionView::Done(Ok(()))),
{
}

/// How a stop of a held child ends: at the first look that finds it gone, that
/// fails, or that comes after five seconds. The child was signalled, is killed
/// exactly if that look still finds it alive, and is given up in every case.
pub proof fn law_stop_outcome(pid: u32, polls: Seq<Poll>, k: int)
    requires
        0 <= k < polls.len(),
        forall|i: int|
            0 <= i < k ==> (#[trigger] polls[i]).status == ChildStatusView::Alive
                && polls[i].waited_millis < 5000,
        polls[k].status == ChildStatusView::Alive ==> polls[k].waited_millis >= 5000,
    ensures
        stop_run(Some(pid), StopEventView::Begin, polls) == (StopRun {
            child: None,
            result: Some(
                match polls[k].status {
                    ChildStatusView::Failed(error) => Err(error),
                    _ => Ok(()),
                },
            ),
            terminated: Some(pid),
            killed: polls[k].status == ChildStatusView::Alive,
        }),
{
    assert forall|i: int| 0 <= i < k implies is_patient(#[trigger] polls[i]) by {}
    law_stop(pid, polls, k);
}

/// Without a child a stop is done at once, whatever would be found: nothing is
/// signalled and nothing killed.
pub proof fn law_stop_without_a_child(polls: Seq<Poll>)
    ensures
        stop_run(None, StopEventView::Begin, polls) == (StopRun {
            child: None,
            result: Some(Ok(())),
            terminated: None,
            killed: false,
        }),
{
}

} // verus!
