//! System DNS on macOS, through `networksetup`.
//!
//! Setting DNS points every enabled network service at the given servers;
//! clearing gives every enabled service back to DHCP, for which `empty` is the
//! keyword that `networksetup` documents. Either way the resolver caches are
//! flushed afterwards, or the old answers would stay for minutes.
//!
//! A service that refuses is noted and the others are still served; the notes
//! make the whole fail at the end.
use crate::service::command::{
    command, CommandLine, CommandLineView, CommandOutcome, CommandOutcomeView, CommandStep,
    CommandStepView,
};
use crate::text::{
    copy_texts, debug_quoted, debug_text, join, joined, lines, lossy_text, split_lines, texts,
    trim, trimmed, utf8_lossy,
};
use vstd::prelude::*;

verus! {

// ---------------------------------------------------------------------------
// The list of services
// ---------------------------------------------------------------------------

/// Whether a trimmed line of the list names an enabled service: it is not empty
/// and has no asterisk in front.
pub open spec fn is_enabled(line: Seq<char>) -> bool {
    line.len() > 0 && line[0] != '*'
}

/// The enabled services among the trimmed `lines`, in order.
pub open spec fn enabled(lines: Seq<Seq<char>>) -> Seq<Seq<char>>
    decreases lines.len(),
{
    if lines.len() == 0 {
        Seq::empty()
    } else {
        let line = trimmed(lines.last());
        if is_enabled(line) {
            enabled(lines.drop_last()).push(line)
        } else {
            enabled(lines.drop_last())
        }
    }
}

/// The enabled services in the output of the listing, whose first line is a
/// preamble.
pub open spec fn listed_services(text: Seq<char>) -> Seq<Seq<char>> {
    if split_lines(text).len() == 0 {
        Seq::empty()
    } else {
        enabled(split_lines(text).drop_first())
    }
}

/// The enabled services in the output of `networksetup -listallnetworkservices`.
pub fn list_services(text: &str) -> (r: Vec<String>)
    ensures
        texts(r@) == listed_services(text@),
{
    let all: Vec<String> = lines(text);
    let mut services: Vec<String> = Vec::new();
    if all.len() == 0 {
        assert(texts(services@) == listed_services(text@));
        return services;
    }
    let ghost rest = texts(all@).drop_first();
    let mut i: usize = 1;
    assert(texts(services@) == enabled(rest.take(0)));
    while i < all.len()
        invariant
            1 <= i <= all.len(),
            rest == texts(all@).drop_first(),
            texts(services@) == enabled(rest.take(i - 1)),
        decreases all.len() - i,
    {
        let line: &str = trim(all[i].as_str());
        let ghost before = texts(services@);
        assert(rest.take(i as int).drop_last() == rest.take(i - 1));
        assert(rest.take(i as int).last() == all@[i as int]@);
        if line.unicode_len() > 0 && line.get_char(0) != '*' {
            services.push(line.to_owned());
            assert(texts(services@) == before.push(line@));
        }
        i = i + 1;
    }
    assert(rest.take(i - 1) == rest);
    services
}

// ---------------------------------------------------------------------------
// What is run, and what is said of failures
// ---------------------------------------------------------------------------

/// The command that lists the network services.
pub open spec fn list_command() -> CommandLineView {
    CommandLineView { program: "networksetup"@, args: seq!["-listallnetworkservices"@] }
}

/// The command that points one service at `servers`, or back at DHCP if there
/// are none given.
pub open spec fn service_command(servers: Option<Seq<Seq<char>>>, service: Seq<char>) -> CommandLineView {
    CommandLineView {
        program: "networksetup"@,
        args: seq!["-setdnsservers"@, service] + match servers {
            Some(s) => s,
            None => seq!["empty"@],
        },
    }
}

/// The command that flushes the directory service's cache.
pub open spec fn flush_command() -> CommandLineView {
    CommandLineView { program: "dscacheutil"@, args: seq!["-flushcache"@] }
}

/// The command that makes the resolver reload.
pub open spec fn reload_command() -> CommandLineView {
    CommandLineView { program: "killall"@, args: seq!["-HUP"@, "mDNSResponder"@] }
}

/// The note on a service that could not be served, from the service's name in
/// quotes and what went wrong.
pub open spec fn service_note(clearing: bool, quoted: Seq<char>, wrong: Seq<char>) -> Seq<char> {
    if clearing {
        "setdnsservers empty "@ + quoted + ": "@ + wrong
    } else {
        "setdnsservers "@ + quoted + ": "@ + wrong
    }
}

/// What went wrong in a run, if anything did.
pub open spec fn run_failure(result: CommandOutcomeView) -> Option<Seq<char>> {
    match result {
        CommandOutcomeView::Finished { success, status, stdout, stderr } => if success {
            None
        } else {
            Some(trimmed(lossy_text(stderr)))
        },
        CommandOutcomeView::NotStarted { error } => Some("spawn failed: "@ + error),
    }
}

/// The final word: success if there are no notes, else all of them.
pub open spec fn verdict(clearing: bool, notes: Seq<Seq<char>>) -> Result<(), Seq<char>> {
    if notes.len() == 0 {
        Ok(())
    } else if clearing {
        Err("clear_dns partial failure: "@ + joined(notes, "; "@))
    } else {
        Err("setdnsservers partial failure: "@ + joined(notes, "; "@))
    }
}

/// The note on a service that could not be served.
pub fn note_text(clearing: bool, quoted: &str, wrong: &str) -> (r: String)
    ensures
        r@ == service_note(clearing, quoted@, wrong@),
{
    let mut r: String = if clearing {
        "setdnsservers empty ".to_owned()
    } else {
        "setdnsservers ".to_owned()
    };
    r.append(quoted);
    r.append(": ");
    r.append(wrong);
    r
}

/// The final word on all services.
pub fn final_word(clearing: bool, notes: &Vec<String>) -> (r: Result<(), String>)
    ensures
        r is Ok <==> verdict(clearing, texts(notes@)) is Ok,
        r matches Err(message) ==> verdict(clearing, texts(notes@)) == Err::<(), _>(message@),
{
    if notes.len() == 0 {
        return Ok(());
    }
    let mut r: String = if clearing {
        "clear_dns partial failure: ".to_owned()
    } else {
        "setdnsservers partial failure: ".to_owned()
    };
    r.append(join(notes, "; ").as_str());
    Err(r)
}

// ---------------------------------------------------------------------------
// The task
// ---------------------------------------------------------------------------

/// Which run is under way.
#[derive(Debug, Clone, Copy, PartialEq, Eq, Structural)]
pub enum DnsStage {
    /// The listing of the services.
    Listing,
    /// The command for the next service.
    Serving,
    /// The flush of the cache.
    Flushing,
    /// The reload of the resolver.
    Reloading,
}

/// A change of the system's DNS under way.
#[derive(Debug)]
pub struct DnsTask {
    /// The servers to set; none to clear.
    servers: Option<Vec<String>>,
    /// The enabled services.
    services: Vec<String>,
    /// How many of them have been served.
    served: usize,
    /// The notes on those that could not be.
    notes: Vec<String>,
    stage: DnsStage,
}

/// A change of the system's DNS under way, with its texts as sequences.
pub struct DnsTaskView {
    pub servers: Option<Seq<Seq<char>>>,
    pub services: Seq<Seq<char>>,
    pub served: nat,
    pub notes: Seq<Seq<char>>,
    pub stage: DnsStage,
}

impl View for DnsTask {
    type V = DnsTaskView;

    closed spec fn view(&self) -> DnsTaskView {
        DnsTaskView {
            servers: match self.servers {
                Some(s) => Some(texts(s@)),
                None => None,
            },
            services: texts(self.services@),
            served: self.served as nat,
            notes: texts(self.notes@),
            stage: self.stage,
        }
    }
}

/// A task that has just begun.
pub open spec fn fresh_task(servers: Option<Seq<Seq<char>>>) -> DnsTaskView {
    DnsTaskView {
        servers,
        services: Seq::empty(),
        served: 0,
        notes: Seq::empty(),
        stage: DnsStage::Listing,
    }
}

/// The command for the next service, or the flush if all have been served.
pub open spec fn next_service(task: DnsTaskView) -> (DnsTaskView, CommandStepView) {
    if task.served < task.services.len() {
        (
            DnsTaskView { stage: DnsStage::Serving, ..task },
            CommandStepView::Run(
                service_command(task.servers, task.services[task.served as int]),
            ),
        )
    } else {
        (
            DnsTaskView { stage: DnsStage::Flushing, ..task },
            CommandStepView::Run(flush_command()),
        )
    }
}

/// The notes after the next service was served with this result.
pub open spec fn noted(task: DnsTaskView, result: CommandOutcomeView) -> Seq<Seq<char>> {
    match run_failure(result) {
        Some(wrong) => task.notes.push(
            service_note(
                task.servers is None,
                debug_text(task.services[task.served as int]),
                wrong,
            ),
        ),
        None => task.notes,
    }
}

/// The next state and step of a task, given what came of the run under way.
pub open spec fn dns_step(task: DnsTaskView, result: CommandOutcomeView) -> (
    DnsTaskView,
    CommandStepView,
) {
    match task.stage {
        DnsStage::Listing => match result {
            CommandOutcomeView::NotStarted { error } => (
                task,
                CommandStepView::Done(
                    Err("spawning networksetup -listallnetworkservices: "@ + error),
                ),
            ),
            CommandOutcomeView::Finished { success, status, stdout, stderr } => if success {
                next_service(
                    DnsTaskView {
                        services: listed_services(lossy_text(stdout)),
                        served: 0,
                        ..task
                    },
                )
            } else {
                (
                    task,
                    CommandStepView::Done(
                        Err(
                            "networksetup -listallnetworkservices failed: "@ + lossy_text(
                                stderr,
                            ),
                        ),
                    ),
                )
            },
        },
        DnsStage::Serving => if task.served < task.services.len() {
            next_service(
                DnsTaskView { served: task.served + 1, notes: noted(task, result), ..task },
            )
        } else {
            next_service(task)
        },
        DnsStage::Flushing => match result {
            CommandOutcomeView::NotStarted { error } => (
                task,
                CommandStepView::Done(Err("dscacheutil -flushcache: "@ + error)),
            ),
            CommandOutcomeView::Finished { .. } => (
                DnsTaskView { stage: DnsStage::Reloading, ..task },
                CommandStepView::Run(reload_command()),
            ),
        },
        DnsStage::Reloading => match result {
            CommandOutcomeView::NotStarted { error } => (
                task,
                CommandStepView::Done(Err("killall -HUP mDNSResponder: "@ + error)),
            ),
            CommandOutcomeView::Finished { .. } => (
                task,
                CommandStepView::Done(verdict(task.servers is None, task.notes)),
            ),
        },
    }
}

fn list_line() -> (r: CommandLine)
    ensures
        r@ == list_command(),
{
    let r = command("networksetup").arg("-listallnetworkservices");
    assert(r@.args =~= list_command().args);
    r
}

/// Begins to point every enabled service at `servers`. An empty list is refused:
/// `networksetup` would leave the old servers in place.
pub fn set_dns(servers: &Vec<String>) -> (r: (DnsTask, CommandStep))
    ensures
        r.0@ == fresh_task(Some(texts(servers@))),
        servers@.len() == 0 ==> r.1@ == CommandStepView::Done(
            Err("set_dns called with empty servers; use clear() to revert to DHCP"@),
        ),
        servers@.len() > 0 ==> r.1@ == CommandStepView::Run(list_command()),
{
    let task = DnsTask {
        servers: Some(copy_texts(servers)),
        services: Vec::new(),
        served: 0,
        notes: Vec::new(),
        stage: DnsStage::Listing,
    };
    assert(texts(task.services@) == Seq::<Seq<char>>::empty());
    assert(texts(task.notes@) == Seq::<Seq<char>>::empty());
    if servers.len() == 0 {
        return (
            task,
            CommandStep::Done(
                Err(
                    "set_dns called with empty servers; use clear() to revert to DHCP".to_owned(),
                ),
            ),
        );
    }
    (task, CommandStep::Run(list_line()))
}

/// Begins to give every enabled service back to DHCP.
pub fn clear_dns() -> (r: (DnsTask, CommandStep))
    ensures
        r.0@ == fresh_task(None),
        r.1@ == CommandStepView::Run(list_command()),
{
    let task = DnsTask {
        servers: None,
        services: Vec::new(),
        served: 0,
        notes: Vec::new(),
        stage: DnsStage::Listing,
    };
    assert(texts(task.services@) == Seq::<Seq<char>>::empty());
    assert(texts(task.notes@) == Seq::<Seq<char>>::empty());
    (task, CommandStep::Run(list_line()))
}

impl DnsTask {
    fn next_run(&mut self) -> (r: CommandStep)
        ensures
            (final(self)@, r@) == next_service(old(self)@),
    {
        if self.served < self.services.len() {
            self.stage = DnsStage::Serving;
            let line: CommandLine = command("networksetup").arg("-setdnsservers").arg(
                self.services[self.served].as_str(),
            );
            let line: CommandLine = match &self.servers {
                Some(servers) => line.args(servers),
                None => line.arg("empty"),
            };
            assert(line@.args =~= service_command(
                old(self)@.servers,
                old(self)@.services[old(self)@.served as int],
            ).args);
            CommandStep::Run(line)
        } else {
            self.stage = DnsStage::Flushing;
            let line: CommandLine = command("dscacheutil").arg("-flushcache");
            assert(line@.args =~= flush_command().args);
            CommandStep::Run(line)
        }
    }

    fn note(&mut self, result: &CommandOutcome)
        requires
            old(self)@.served < old(self)@.services.len(),
        ensures
            final(self)@ == (DnsTaskView {
                served: old(self)@.served + 1,
                notes: noted(old(self)@, result@),
                ..old(self)@
            }),
    {
        let clearing: bool = self.servers.is_none();
        let total: usize = self.services.len();
        assert(self.served < total);
        let wrong: Option<String> = match result {
            CommandOutcome::Finished { success, status: _, stdout: _, stderr } => {
                if *success {
                    None
                } else {
                    let text: String = utf8_lossy(stderr.as_slice());
                    Some(trim(text.as_str()).to_owned())
                }
            },
            CommandOutcome::NotStarted { error } => Some(
                "spawn failed: ".to_owned().concat(error.as_str()),
            ),
        };
        match wrong {
            Some(wrong) => {
                let quoted: String = debug_quoted(self.services[self.served].as_str());
                let ghost before = texts(self.notes@);
                self.notes.push(note_text(clearing, quoted.as_str(), wrong.as_str()));
                assert(texts(self.notes@) == before.push(self.notes@.last()@));
            },
            None => {},
        }
        self.served = self.served + 1;
    }

    /// Takes the task one step further with what came of the run under way.
    pub fn advance(&mut self, result: CommandOutcome) -> (r: CommandStep)
        ensures
            (final(self)@, r@) == dns_step(old(self)@, result@),
    {
        match self.stage {
            DnsStage::Listing => match result {
                CommandOutcome::NotStarted { error } => CommandStep::Done(
                    Err(
                        "spawning networksetup -listallnetworkservices: ".to_owned().concat(
                            error.as_str(),
                        ),
                    ),
                ),
                CommandOutcome::Finished { success, status: _, stdout, stderr } => {
                    if success {
                        self.services = list_services(utf8_lossy(stdout.as_slice()).as_str());
                        self.served = 0;
                        self.next_run()
                    } else {
                        CommandStep::Done(
                            Err(
                                "networksetup -listallnetworkservices failed: ".to_owned().concat(
                                    utf8_lossy(stderr.as_slice()).as_str(),
                                ),
                            ),
                        )
                    }
                },
            },
            DnsStage::Serving => {
                if self.served < self.services.len() {
                    self.note(&result);
                }
                self.next_run()
            },
            DnsStage::Flushing => match result {
                CommandOutcome::NotStarted { error } => CommandStep::Done(
                    Err("dscacheutil -flushcache: ".to_owned().concat(error.as_str())),
                ),
                CommandOutcome::Finished { .. } => {
                    self.stage = DnsStage::Reloading;
                    let line: CommandLine = command("killall").arg("-HUP").arg("mDNSResponder");
                    assert(line@.args =~= reload_command().args);
                    CommandStep::Run(line)
                },
            },
            DnsStage::Reloading => match result {
                CommandOutcome::NotStarted { error } => CommandStep::Done(
                    Err("killall -HUP mDNSResponder: ".to_owned().concat(error.as_str())),
                ),
                CommandOutcome::Finished { .. } => {
                    let clearing: bool = self.servers.is_none();
                    CommandStep::Done(final_word(clearing, &self.notes))
                },
            },
        }
    }
}

// ---------------------------------------------------------------------------
// Whole changes
// ---------------------------------------------------------------------------

/// The steps that a task takes when its runs end in `results`, one after the other.
pub open spec fn dns_steps(task: DnsTaskView, results: Seq<CommandOutcomeView>) -> Seq<
    CommandStepView,
>
    decreases results.len(),
{
    if results.len() == 0 {
        Seq::empty()
    } else {
        let (next, step) = dns_step(task, results[0]);
        seq![step] + dns_steps(next, results.drop_first())
    }
}

/// The notes on `services`, each served with the result at its place.
pub open spec fn all_notes(
    clearing: bool,
    services: Seq<Seq<char>>,
    results: Seq<CommandOutcomeView>,
) -> Seq<Seq<char>>
    decreases services.len(),
{
    if services.len() == 0 {
        Seq::empty()
    } else {
        let before = all_notes(clearing, services.drop_last(), results);
        match run_failure(results[services.len() - 1]) {
            Some(wrong) => before.push(
                service_note(clearing, debug_text(services.last()), wrong),
            ),
            None => before,
        }
    }
}

/// The runs for the services from the `from`th on.
pub open spec fn service_runs(
    servers: Option<Seq<Seq<char>>>,
    services: Seq<Seq<char>>,
    from: int,
) -> Seq<CommandStepView> {
    Seq::new(
        (services.len() - from) as nat,
        |i: int| CommandStepView::Run(service_command(servers, services[from + i])),
    )
}

/// What comes after the last service.
pub open spec fn closing_steps(clearing: bool, notes: Seq<Seq<char>>) -> Seq<CommandStepView> {
    seq![
        CommandStepView::Run(flush_command()),
        CommandStepView::Run(reload_command()),
        CommandStepView::Done(verdict(clearing, notes)),
    ]
}

proof fn lemma_steps_from_service(
    servers: Option<Seq<Seq<char>>>,
    services: Seq<Seq<char>>,
    served: nat,
    results: Seq<CommandOutcomeView>,
    flushed: CommandOutcomeView,
    reloaded: CommandOutcomeView,
)
    requires
        served <= services.len(),
        results.len() == services.len(),
        flushed is Finished,
        reloaded is Finished,
    ensures
        ({
            let (task, step) = next_service(
                DnsTaskView {
                    servers,
                    services,
                    served,
                    notes: all_notes(servers is None, services.take(served as int), results),
                    stage: DnsStage::Serving,
                },
            );
            let rest = results.skip(served as int) + seq![flushed, reloaded];
            seq![step] + dns_steps(task, rest) == service_runs(servers, services, served as int)
                + closing_steps(servers is None, all_notes(servers is None, services, results))
        }),
    decreases services.len() - served,
{
    let clearing = servers is None;
    let notes = all_notes(clearing, services.take(served as int), results);
    let here = DnsTaskView { servers, services, served, notes, stage: DnsStage::Serving };
    let (task, step) = next_service(here);
    let rest = results.skip(served as int) + seq![flushed, reloaded];
    if served < services.len() {
        let after = services.take(served as int + 1);
        assert(after.drop_last() == services.take(served as int));
        assert(after.last() == services[served as int]);
        assert(rest[0] == results[served as int]);
        assert(noted(task, rest[0]) == all_notes(clearing, after, results));
        assert(rest.drop_first() == results.skip(served as int + 1) + seq![flushed, reloaded]);
        lemma_steps_from_service(servers, services, served + 1, results, flushed, reloaded);
        assert(service_runs(servers, services, served as int) == seq![step] + service_runs(
            servers,
            services,
            served as int + 1,
        ));
        assert(seq![step] + (service_runs(servers, services, served as int + 1) + closing_steps(
            clearing,
            all_notes(clearing, services, results),
        )) == service_runs(servers, services, served as int) + closing_steps(
            clearing,
            all_notes(clearing, services, results),
        ));
    } else {
        assert(services.take(served as int) == services);
        assert(rest == seq![flushed, reloaded]);
        assert(rest.drop_first() == seq![reloaded]);
        assert(seq![reloaded].drop_first() == Seq::<CommandOutcomeView>::empty());
        reveal_with_fuel(dns_steps, 3);
        assert(service_runs(servers, services, served as int) == Seq::<CommandStepView>::empty());
        assert(seq![step] + dns_steps(task, rest) == closing_steps(clearing, notes));
    }
}

/// A change of DNS that could list the services serves every enabled one, in
/// order and once each, whichever of them fail; it then flushes the caches, and
/// it succeeds exactly if no service failed.
pub proof fn law_every_enabled_service_is_served(
    servers: Option<Seq<Seq<char>>>,
    status: Seq<char>,
    stdout: Seq<u8>,
    stderr: Seq<u8>,
    results: Seq<CommandOutcomeView>,
    flushed: CommandOutcomeView,
    reloaded: CommandOutcomeView,
)
    requires
        flushed is Finished,
        reloaded is Finished,
    ensures
        ({
            let services = listed_services(lossy_text(stdout));
            let listing = CommandOutcomeView::Finished { success: true, status, stdout, stderr };
            let notes = all_notes(servers is None, services, results);
            results.len() == services.len() ==> {
                &&& dns_steps(
                    fresh_task(servers),
                    seq![listing] + results + seq![flushed, reloaded],
                ) == service_runs(servers, services, 0) + closing_steps(servers is None, notes)
                &&& verdict(servers is None, notes) is Ok <==> forall|i: int|
                    0 <= i < results.len() ==> run_failure(#[trigger] results[i]) is None
            }
        }),
{
    let services = listed_services(lossy_text(stdout));
    let listing = CommandOutcomeView::Finished { success: true, status, stdout, stderr };
    if results.len() == services.len() {
        let all = seq![listing] + results + seq![flushed, reloaded];
        assert(all.drop_first() == results.skip(0) + seq![flushed, reloaded]);
        assert(services.take(0) == Seq::<Seq<char>>::empty());
        assert(all_notes(servers is None, services.take(0), results) == Seq::<Seq<char>>::empty());
        lemma_steps_from_service(servers, services, 0, results, flushed, reloaded);
        lemma_notes_empty(servers is None, services, results);
    }
}

proof fn lemma_notes_empty(
    clearing: bool,
    services: Seq<Seq<char>>,
    results: Seq<CommandOutcomeView>,
)
    requires
        services.len() <= results.len(),
    ensures
        all_notes(clearing, services, results).len() == 0 <==> forall|i: int|
            0 <= i < services.len() ==> run_failure(#[trigger] results[i]) is None,
    decreases services.len(),
{
    if services.len() > 0 {
        lemma_notes_empty(clearing, services.drop_last(), results);
        let last = services.len() - 1;
        if run_failure(results[last]) is None {
            assert(forall|i: int|
                0 <= i < services.len() ==> (run_failure(#[trigger] results[i]) is None <== (i
                    == last || run_failure(results[i]) is None)));
        }
    }
}

} // verus!
