//! System DNS on Linux, through `resolvectl`.
//!
//! The servers are set on the interface of the default route, and that
//! interface is asked first for every domain; clearing reverts the interface to
//! what DHCP gave it. The resolver's cache is flushed afterwards. That the
//! domain or the flush is refused is not fatal.
use crate::service::command::{
    command, CommandLine, CommandLineView, CommandOutcome, CommandOutcomeView, CommandStep,
    CommandStepView,
};
use crate::text::{
    copy_texts, lossy_text, same_text, split_words, texts, trim, trimmed, utf8_lossy, words,
};
use vstd::prelude::*;

verus! {

// ---------------------------------------------------------------------------
// The interface of the default route
// ---------------------------------------------------------------------------

/// The word after the first `dev`.
pub open spec fn word_after_dev(words: Seq<Seq<char>>) -> Option<Seq<char>>
    decreases words.len(),
{
    if words.len() < 2 {
        None
    } else if words[0] == "dev"@ {
        Some(words[1])
    } else {
        word_after_dev(words.drop_first())
    }
}

/// The interface named in a route.
pub open spec fn route_iface(text: Seq<char>) -> Option<Seq<char>> {
    word_after_dev(split_words(text))
}

/// The interface that the output of `ip route get` names.
pub fn default_iface(text: &str) -> (r: Option<String>)
    ensures
        r is Some <==> route_iface(text@) is Some,
        r matches Some(iface) ==> route_iface(text@) == Some(iface@),
{
    let tokens: Vec<String> = words(text);
    let ghost all = texts(tokens@);
    let mut i: usize = 0;
    assert(all.skip(0) == all);
    while i < tokens.len()
        invariant
            i <= tokens.len(),
            all == texts(tokens@),
            all == split_words(text@),
            word_after_dev(all) == word_after_dev(all.skip(i as int)),
        decreases tokens.len() - i,
    {
        if same_text(tokens[i].as_str(), "dev") {
            if i + 1 < tokens.len() {
                return Some(tokens[i + 1].clone());
            }
            return None;
        }
        assert(all.skip(i as int).drop_first() == all.skip(i + 1));
        i = i + 1;
    }
    None
}

// ---------------------------------------------------------------------------
// What is run
// ---------------------------------------------------------------------------

/// The command that asks for the default route.
pub open spec fn route_command() -> CommandLineView {
    CommandLineView { program: "ip"@, args: seq!["route"@, "get"@, "1.1.1.1"@] }
}

/// The command that sets the servers of an interface.
pub open spec fn servers_command(iface: Seq<char>, servers: Seq<Seq<char>>) -> CommandLineView {
    CommandLineView { program: "resolvectl"@, args: seq!["dns"@, iface] + servers }
}

/// The command that has an interface asked for every domain.
pub open spec fn domain_command(iface: Seq<char>) -> CommandLineView {
    CommandLineView { program: "resolvectl"@, args: seq!["domain"@, iface, "~."@] }
}

/// The command that takes back what was set on an interface.
pub open spec fn revert_command(iface: Seq<char>) -> CommandLineView {
    CommandLineView { program: "resolvectl"@, args: seq!["revert"@, iface] }
}

/// The command that flushes the cache.
pub open spec fn flush_command() -> CommandLineView {
    CommandLineView { program: "resolvectl"@, args: seq!["flush-caches"@] }
}

/// Why there is no interface: the output named none.
pub open spec fn no_iface_text(stdout: Seq<char>) -> Seq<char> {
    "no `dev <iface>` in `ip route get 1.1.1.1` output: "@ + trimmed(stdout)
}

/// Why there is no interface: the command failed.
pub open spec fn route_failure_text(status: Seq<char>, stderr: Seq<char>) -> Seq<char> {
    "`ip route get 1.1.1.1` exit "@ + status + ": "@ + trimmed(stderr)
}

// ---------------------------------------------------------------------------
// The task
// ---------------------------------------------------------------------------

/// Which run is under way.
#[derive(Debug)]
pub enum DnsStage {
    /// The question for the default route.
    Routing,
    /// The servers of this interface.
    Setting(String),
    /// The domain of the interface.
    Claiming,
    /// The revert of the interface.
    Reverting,
    /// The flush of the cache.
    Flushing,
}

/// Which run is under way, with its text as a sequence.
pub enum DnsStageView {
    Routing,
    Setting(Seq<char>),
    Claiming,
    Reverting,
    Flushing,
}

impl View for DnsStage {
    type V = DnsStageView;

    open spec fn view(&self) -> DnsStageView {
        match self {
            DnsStage::Routing => DnsStageView::Routing,
            DnsStage::Setting(iface) => DnsStageView::Setting(iface@),
            DnsStage::Claiming => DnsStageView::Claiming,
            DnsStage::Reverting => DnsStageView::Reverting,
            DnsStage::Flushing => DnsStageView::Flushing,
        }
    }
}

/// A change of the system's DNS under way.
#[derive(Debug)]
pub struct DnsTask {
    /// The servers to set; none to clear.
    servers: Option<Vec<String>>,
    stage: DnsStage,
}

/// A change of the system's DNS under way, with its texts as sequences.
pub struct DnsTaskView {
    pub servers: Option<Seq<Seq<char>>>,
    pub stage: DnsStageView,
}

impl View for DnsTask {
    type V = DnsTaskView;

    closed spec fn view(&self) -> DnsTaskView {
        DnsTaskView {
            servers: match self.servers {
                Some(s) => Some(texts(s@)),
                None => None,
            },
            stage: self.stage@,
        }
    }
}

/// A task that has just begun.
pub open spec fn fresh_task(servers: Option<Seq<Seq<char>>>) -> DnsTaskView {
    DnsTaskView { servers, stage: DnsStageView::Routing }
}

/// The end of a task that cannot go on.
pub open spec fn failed(task: DnsTaskView, message: Seq<char>) -> (DnsTaskView, CommandStepView) {
    (task, CommandStepView::Done(Err(message)))
}

/// The next stage and run of a task.
pub open spec fn proceed(task: DnsTaskView, stage: DnsStageView, line: CommandLineView) -> (
    DnsTaskView,
    CommandStepView,
) {
    (DnsTaskView { servers: task.servers, stage }, CommandStepView::Run(line))
}

/// The next state and step of a task, given what came of the run under way.
pub open spec fn dns_step(task: DnsTaskView, result: CommandOutcomeView) -> (
    DnsTaskView,
    CommandStepView,
) {
    match (task.stage, result) {
        (DnsStageView::Routing, CommandOutcomeView::NotStarted { error }) => failed(
            task,
            "spawning `ip route get 1.1.1.1`: "@ + error,
        ),
        (
            DnsStageView::Routing,
            CommandOutcomeView::Finished { success, status, stdout, stderr },
        ) => if !success {
            failed(task, route_failure_text(status, lossy_text(stderr)))
        } else {
            match (route_iface(lossy_text(stdout)), task.servers) {
                (None, _) => failed(task, no_iface_text(lossy_text(stdout))),
                (Some(iface), Some(servers)) => proceed(
                    task,
                    DnsStageView::Setting(iface),
                    servers_command(iface, servers),
                ),
                (Some(iface), None) => proceed(
                    task,
                    DnsStageView::Reverting,
                    revert_command(iface),
                ),
            }
        },
        (DnsStageView::Setting(_), CommandOutcomeView::NotStarted { error }) => failed(
            task,
            "spawning resolvectl dns: "@ + error,
        ),
        (
            DnsStageView::Setting(iface),
            CommandOutcomeView::Finished { success, status, stdout, stderr },
        ) => if success {
            proceed(task, DnsStageView::Claiming, domain_command(iface))
        } else {
            failed(task, "resolvectl dns failed: "@ + trimmed(lossy_text(stderr)))
        },
        (DnsStageView::Claiming, CommandOutcomeView::NotStarted { error }) => failed(
            task,
            "spawning resolvectl domain: "@ + error,
        ),
        (DnsStageView::Claiming, CommandOutcomeView::Finished { .. }) => proceed(
            task,
            DnsStageView::Flushing,
            flush_command(),
        ),
        (DnsStageView::Reverting, CommandOutcomeView::NotStarted { error }) => failed(
            task,
            "spawning resolvectl revert: "@ + error,
        ),
        (
            DnsStageView::Reverting,
            CommandOutcomeView::Finished { success, status, stdout, stderr },
        ) => if success {
            proceed(task, DnsStageView::Flushing, flush_command())
        } else {
            failed(task, "resolvectl revert failed: "@ + trimmed(lossy_text(stderr)))
        },
        (DnsStageView::Flushing, CommandOutcomeView::NotStarted { error }) => failed(
            task,
            "spawning resolvectl flush-caches: "@ + error,
        ),
        (DnsStageView::Flushing, CommandOutcomeView::Finished { .. }) => (
            task,
            CommandStepView::Done(Ok(())),
        ),
    }
}

fn route_line() -> (r: CommandLine)
    ensures
        r@ == route_command(),
{
    let r = command("ip").arg("route").arg("get").arg("1.1.1.1");
    assert(r@.args =~= route_command().args);
    r
}

fn flush_line() -> (r: CommandLine)
    ensures
        r@ == flush_command(),
{
    let r = command("resolvectl").arg("flush-caches");
    assert(r@.args =~= flush_command().args);
    r
}

fn failure(message: &str, detail: &str) -> (r: CommandStep)
    ensures
        r@ == CommandStepView::Done(Err(message@ + detail@)),
{
    CommandStep::Done(Err(message.to_owned().concat(detail)))
}

fn refusal(message: &str, stderr: &Vec<u8>) -> (r: CommandStep)
    ensures
        r@ == CommandStepView::Done(Err(message@ + trimmed(lossy_text(stderr@)))),
{
    let text: String = utf8_lossy(stderr.as_slice());
    failure(message, trim(text.as_str()))
}

/// Begins to point the default route's interface at `servers`. An empty list is
/// refused; that is what clearing is for.
pub fn set_dns(servers: &Vec<String>) -> (r: (DnsTask, CommandStep))
    ensures
        r.0@ == fresh_task(Some(texts(servers@))),
        servers@.len() == 0 ==> r.1@ == CommandStepView::Done(
            Err("set_dns called with empty servers; use clear_dns() to revert to DHCP"@),
        ),
        servers@.len() > 0 ==> r.1@ == CommandStepView::Run(route_command()),
{
    let task = DnsTask { servers: Some(copy_texts(servers)), stage: DnsStage::Routing };
    if servers.len() == 0 {
        return (
            task,
            CommandStep::Done(
                Err(
                    "set_dns called with empty servers; use clear_dns() to revert to DHCP"
                        .to_owned(),
                ),
            ),
        );
    }
    (task, CommandStep::Run(route_line()))
}

/// Begins to give the default route's interface back to DHCP.
pub fn clear_dns() -> (r: (DnsTask, CommandStep))
    ensures
        r.0@ == fresh_task(None),
        r.1@ == CommandStepView::Run(route_command()),
{
    (DnsTask { servers: None, stage: DnsStage::Routing }, CommandStep::Run(route_line()))
}

impl DnsTask {
    fn routed(&mut self, stdout: &Vec<u8>) -> (r: CommandStep)
        ensures
            ({
                let text = lossy_text(stdout@);
                (final(self)@, r@) == match (route_iface(text), old(self)@.servers) {
                    (None, _) => failed(old(self)@, no_iface_text(text)),
                    (Some(iface), Some(servers)) => proceed(
                        old(self)@,
                        DnsStageView::Setting(iface),
                        servers_command(iface, servers),
                    ),
                    (Some(iface), None) => proceed(
                        old(self)@,
                        DnsStageView::Reverting,
                        revert_command(iface),
                    ),
                }
            }),
    {
        let text: String = utf8_lossy(stdout.as_slice());
        match default_iface(text.as_str()) {
            None => failure(
                "no `dev <iface>` in `ip route get 1.1.1.1` output: ",
                trim(text.as_str()),
            ),
            Some(iface) => match &self.servers {
                Some(servers) => {
                    let line: CommandLine = command("resolvectl").arg("dns").arg(
                        iface.as_str(),
                    ).args(servers);
                    assert(line@.args =~= servers_command(iface@, texts(servers@)).args);
                    self.stage = DnsStage::Setting(iface);
                    CommandStep::Run(line)
                },
                None => {
                    let line: CommandLine = command("resolvectl").arg("revert").arg(
                        iface.as_str(),
                    );
                    assert(line@.args =~= revert_command(iface@).args);
                    self.stage = DnsStage::Reverting;
                    CommandStep::Run(line)
                },
            },
        }
    }

    /// Takes the task one step further with what came of the run under way.
    pub fn advance(&mut self, result: CommandOutcome) -> (r: CommandStep)
        ensures
            (final(self)@, r@) == dns_step(old(self)@, result@),
    {
        match &self.stage {
            DnsStage::Routing => match result {
                CommandOutcome::NotStarted { error } => failure(
                    "spawning `ip route get 1.1.1.1`: ",
                    error.as_str(),
                ),
                CommandOutcome::Finished { success, status, stdout, stderr } => {
                    if success {
                        self.routed(&stdout)
                    } else {
                        let message: String = "`ip route get 1.1.1.1` exit ".to_owned().concat(
                            status.as_str(),
                        ).concat(": ");
                        refusal(message.as_str(), &stderr)
                    }
                },
            },
            DnsStage::Setting(iface) => match result {
                CommandOutcome::NotStarted { error } => failure(
                    "spawning resolvectl dns: ",
                    error.as_str(),
                ),
                CommandOutcome::Finished { success, status: _, stdout: _, stderr } => {
                    if success {
                        let line: CommandLine = command("resolvectl").arg("domain").arg(
                            iface.as_str(),
                        ).arg("~.");
                        assert(line@.args =~= domain_command(iface@).args);
                        self.stage = DnsStage::Claiming;
                        CommandStep::Run(line)
                    } else {
                        refusal("resolvectl dns failed: ", &stderr)
                    }
                },
            },
            DnsStage::Claiming => match result {
                CommandOutcome::NotStarted { error } => failure(
                    "spawning resolvectl domain: ",
                    error.as_str(),
                ),
                CommandOutcome::Finished { .. } => {
                    self.stage = DnsStage::Flushing;
                    CommandStep::Run(flush_line())
                },
            },
            DnsStage::Reverting => match result {
                CommandOutcome::NotStarted { error } => failure(
                    "spawning resolvectl revert: ",
                    error.as_str(),
                ),
                CommandOutcome::Finished { success, status: _, stdout: _, stderr } => {
                    if success {
                        self.stage = DnsStage::Flushing;
                        CommandStep::Run(flush_line())
                    } else {
                        refusal("resolvectl revert failed: ", &stderr)
                    }
                },
            },
            DnsStage::Flushing => match result {
                CommandOutcome::NotStarted { error } => failure(
                    "spawning resolvectl flush-caches: ",
                    error.as_str(),
                ),
                CommandOutcome::Finished { .. } => CommandStep::Done(Ok(())),
            },
        }
    }
}

// ---------------------------------------------------------------------------
// Whole changes
// ---------------------------------------------------------------------------

/// The steps that a task takes when its runs end in `results`, one after the other.
pub open spec fn dns_steps(task: DnsTaskView, results: Seq<CommandOutcomeView>) -> Seq<
    CommandStepView,
>
    decreases results.len(),
{
    if results.len() == 0 {
        Seq::empty()
    } else {
        let (next, step) = dns_step(task, results[0]);
        seq![step] + dns_steps(next, results.drop_first())
    }
}

/// Whether a run ended in success.
pub open spec fn succeeded(result: CommandOutcomeView) -> bool {
    result matches CommandOutcomeView::Finished { success, .. } && success
}

/// Setting DNS with a known route sets the servers on the route's interface,
/// claims every domain for it and flushes the cache. It succeeds once the servers
/// are set, even if the domain and the flush are refused.
pub proof fn law_set(
    servers: Seq<Seq<char>>,
    route: CommandOutcomeView,
    set: CommandOutcomeView,
    claimed: CommandOutcomeView,
    flushed: CommandOutcomeView,
)
    requires
        succeeded(route),
        succeeded(set),
        claimed is Finished,
        flushed is Finished,
    ensures
        route_iface(lossy_text(route->stdout)) matches Some(iface) ==> dns_steps(
            fresh_task(Some(servers)),
            seq![route, set, claimed, flushed],
        ) == seq![
            CommandStepView::Run(servers_command(iface, servers)),
            CommandStepView::Run(domain_command(iface)),
            CommandStepView::Run(flush_command()),
            CommandStepView::Done(Ok(())),
        ],
{
    let results = seq![route, set, claimed, flushed];
    assert(results.drop_first() == seq![set, claimed, flushed]);
    assert(seq![set, claimed, flushed].drop_first() == seq![claimed, flushed]);
    assert(seq![claimed, flushed].drop_first() == seq![flushed]);
    assert(seq![flushed].drop_first() == Seq::<CommandOutcomeView>::empty());
    reveal_with_fuel(dns_steps, 5);
}

/// Clearing DNS with a known route reverts the route's interface and flushes the
/// cache; it succeeds once the interface is reverted.
pub proof fn law_clear(
    route: CommandOutcomeView,
    reverted: CommandOutcomeView,
    flushed: CommandOutcomeView,
)
    requires
        succeeded(route),
        succeeded(reverted),
        flushed is Finished,
    ensures
        route_iface(lossy_text(route->stdout)) matches Some(iface) ==> dns_steps(
            fresh_task(None),
            seq![route, reverted, flushed],
        ) == seq![
            CommandStepView::Run(revert_command(iface)),
            CommandStepView::Run(flush_command()),
            CommandStepView::Done(Ok(())),
        ],
{
    assert(seq![route, reverted, flushed].drop_first() == seq![reverted, flushed]);
    assert(seq![reverted, flushed].drop_first() == seq![flushed]);
    assert(seq![flushed].drop_first() == Seq::<CommandOutcomeView>::empty());
    reveal_with_fuel(dns_steps, 4);
}

} // verus!
