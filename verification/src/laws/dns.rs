//! Laws of changing the system's DNS.
use crate::laws::text::{blank, law_lines, law_trimmed};
use crate::service::command::{CommandLineView, CommandOutcomeView, CommandStepView};
use crate::service::dns;
use crate::service::dns::{enabled, law_every_enabled_service_is_served, listed_services};
use crate::service::dns_linux;
use crate::service::dns_linux::{law_clear, law_set, route_iface, word_after_dev};
use crate::text::{
    debug_text, is_white_space, joined, line_end, lossy_text, split_lines, split_words, strip_cr,
    trimmed,
};
use vstd::prelude::*;

verus! {

// ---------------------------------------------------------------------------
// The list of services
// ---------------------------------------------------------------------------

proof fn lemma_first_line(s: Seq<char>)
    requires
        s.contains('\n'),
    ensures
        0 <= line_end(s) < s.len(),
        s[line_end(s)] == '\n',
        !s.take(line_end(s)).contains('\n'),
        s == s.take(line_end(s)) + seq!['\n'] + s.skip(line_end(s) + 1),
    decreases s.len(),
{
    if s[0] != '\n' {
        let t = s.drop_first();
        let i = choose|i: int| 0 <= i < s.len() && s[i] == '\n';
        assert(t[i - 1] == '\n');
        lemma_first_line(t);
        let front = s.take(line_end(s));
        assert forall|j: int| 0 <= j < front.len() implies front[j] != '\n' by {
            if j > 0 {
                assert(t.take(line_end(t))[j - 1] == front[j]);
                assert(t.take(line_end(t)).contains(t.take(line_end(t))[j - 1]));
            }
        }
    }
    assert(s =~= s.take(line_end(s)) + seq!['\n'] + s.skip(line_end(s) + 1));
}

proof fn lemma_lines_append(head: Seq<char>, rest: Seq<char>)
    requires
        head.len() > 0 ==> head.last() == '\n',
    ensures
        split_lines(head + rest) == split_lines(head) + split_lines(rest),
    decreases head.len(),
{
    if head.len() == 0 {
        assert(head + rest == rest);
        assert(split_lines(head) + split_lines(rest) == split_lines(rest));
    } else {
        assert(head.contains(head.last()));
        lemma_first_line(head);
        let line = head.take(line_end(head));
        let more = head.skip(line_end(head) + 1);
        if more.len() > 0 {
            assert(more.last() == head.last());
        }
        assert(head + rest == line + seq!['\n'] + (more + rest));
        law_lines(line, more);
        law_lines(line, more + rest);
        lemma_lines_append(more, rest);
        assert(split_lines(head + rest) =~= split_lines(head) + split_lines(rest));
    }
}

proof fn lemma_stripped_is_trimmed(before: Seq<char>, name: Seq<char>, after: Seq<char>)
    requires
        blank(before),
        blank(after),
        name.len() > 0 ==> !is_white_space(name[0]) && !is_white_space(name.last()),
    ensures
        trimmed(strip_cr(before + name + after)) == name,
        trimmed(before + name + after) == name,
{
    let line = before + name + after;
    law_trimmed(before, name, after);
    if line.len() > 0 && line.last() == '\r' {
        if after.len() > 0 {
            let less = after.drop_last();
            assert(strip_cr(line) == before + name + less);
            law_trimmed(before, name, less);
        } else if name.len() > 0 {
            assert(line.last() == name.last());
        } else {
            let less = before.drop_last();
            assert(strip_cr(line) == less + name + after);
            law_trimmed(less, name, after);
        }
    }
}

/// The services grow line by line. Behind the preamble a line adds what stands on
/// it between white space, and adds nothing exactly if that is nothing or begins
/// with an asterisk; whatever else it begins with, it names a service. Whether the
/// last line is ended makes no difference.
pub proof fn law_every_line_counts(
    above: Seq<char>,
    before: Seq<char>,
    name: Seq<char>,
    after: Seq<char>,
)
    requires
        above.len() > 0,
        above.last() == '\n',
        blank(before),
        blank(after),
        name.len() > 0 ==> !is_white_space(name[0]) && !is_white_space(name.last()),
        !(before + name + after).contains('\n'),
    ensures
        ({
            let line = before + name + after;
            let grown = listed_services(above) + if name.len() == 0 || name[0] == '*' {
                Seq::<Seq<char>>::empty()
            } else {
                seq![name]
            };
            &&& listed_services(above + line) == grown
            &&& listed_services(above + line + seq!['\n']) == grown
        }),
{
    let line = before + name + after;
    let none = Seq::<char>::empty();
    let no_lines = Seq::<Seq<char>>::empty();
    lemma_stripped_is_trimmed(before, name, after);
    lemma_lines_append(above, line);
    assert(above + line + seq!['\n'] == above + (line + seq!['\n'] + none));
    lemma_lines_append(above, line + seq!['\n'] + none);
    law_lines(line, none);
    law_lines(none, none);
    let first = split_lines(above);
    assert(first.len() > 0) by {
        assert(above.contains(above.last()));
        lemma_first_line(above);
        law_lines(above.take(line_end(above)), above.skip(line_end(above) + 1));
    }
    let listed = first.drop_first();
    assert((first + no_lines).drop_first() == listed);
    assert(listed_services(above) + no_lines == listed_services(above));
    assert forall|l: Seq<char>| trimmed(l) == name implies enabled(
        #[trigger] (first + seq![l]).drop_first(),
    ) == enabled(listed) + if name.len() == 0 || name[0] == '*' {
        no_lines
    } else {
        seq![name]
    } by {
        let all = (first + seq![l]).drop_first();
        assert(all.last() == l);
        assert(all.drop_last() == listed);
        assert(enabled(listed).push(name) == enabled(listed) + seq![name]);
        assert(enabled(listed) == enabled(listed) + no_lines);
    }
    assert(split_lines(above + line + seq!['\n']) =~= first + seq![strip_cr(line)]);
    assert((first + seq![strip_cr(line)]).drop_first() == (first + seq![
        strip_cr(line),
    ]).drop_first());
    if line.len() > 0 {
        assert(split_lines(above + line) =~= first + seq![line]);
        assert((first + seq![line]).drop_first() == (first + seq![line]).drop_first());
    } else {
        assert(split_lines(above + line) =~= first);
        assert(before.len() == 0 && name.len() == 0 && after.len() == 0);
    }
}

/// The first line is a preamble: on its own it names no service, ended or not.
pub proof fn law_preamble_names_nothing(preamble: Seq<char>)
    requires
        !preamble.contains('\n'),
    ensures
        listed_services(preamble) == Seq::<Seq<char>>::empty(),
        listed_services(preamble + seq!['\n']) == Seq::<Seq<char>>::empty(),
{
    let none = Seq::<char>::empty();
    assert(preamble + seq!['\n'] + none == preamble + seq!['\n']);
    assert(!none.contains('\n'));
    law_lines(preamble, none);
    law_lines(none, none);
    let no_lines = Seq::<Seq<char>>::empty();
    assert(enabled(no_lines) == no_lines);
    let lines = split_lines(preamble + seq!['\n']);
    assert(lines.len() == 1);
    assert(lines.drop_first() == no_lines);
    assert(split_lines(preamble).len() <= 1);
    if split_lines(preamble).len() == 1 {
        assert(split_lines(preamble).drop_first() == no_lines);
    }
}

// ---------------------------------------------------------------------------
// macOS
// ---------------------------------------------------------------------------

/// Whether a program ran and reported success.
pub open spec fn went_well(result: CommandOutcomeView) -> bool {
    result matches CommandOutcomeView::Finished { success, .. } && success
}

/// A change of DNS whose listing succeeded runs `networksetup` once for every
/// enabled service, in order, with the service's own name and the given servers as
/// they are, or the word `empty` to clear; then the two commands that flush the
/// caches; and it is a success exactly if every service went well.
pub proof fn law_dns_on_macos(
    servers: Option<Seq<Seq<char>>>,
    status: Seq<char>,
    stdout: Seq<u8>,
    stderr: Seq<u8>,
    results: Seq<CommandOutcomeView>,
    flushed: CommandOutcomeView,
    reloaded: CommandOutcomeView,
)
    requires
        flushed is Finished,
        reloaded is Finished,
    ensures
        ({
            let services = listed_services(lossy_text(stdout));
            let n = services.len() as int;
            let listing = CommandOutcomeView::Finished { success: true, status, stdout, stderr };
            let steps = dns::dns_steps(
                dns::fresh_task(servers),
                seq![listing] + results + seq![flushed, reloaded],
            );
            results.len() == n ==> {
                &&& steps.len() == n + 3
                &&& forall|i: int|
                    0 <= i < n ==> (#[trigger] steps[i]) == CommandStepView::Run(
                        CommandLineView {
                            program: "networksetup"@,
                            args: seq!["-setdnsservers"@, services[i]] + match servers {
                                Some(list) => list,
                                None => seq!["empty"@],
                            },
                        },
                    )
                &&& steps[n] == CommandStepView::Run(
                    CommandLineView { program: "dscacheutil"@, args: seq!["-flushcache"@] },
                )
                &&& steps[n + 1] == CommandStepView::Run(
                    CommandLineView {
                        program: "killall"@,
                        args: seq!["-HUP"@, "mDNSResponder"@],
                    },
                )
                &&& steps[n + 2] == CommandStepView::Done(Ok(())) <==> forall|i: int|
                    0 <= i < n ==> went_well(#[trigger] results[i])
                &&& steps[n + 2] is Done
                &&& steps[n + 2]->Done_0 matches Err(message) ==> message == (match servers {
                    Some(_) => "setdnsservers partial failure: "@,
                    None => "clear_dns partial failure: "@,
                }) + joined(dns::all_notes(servers is None, services, results), "; "@)
            }
        }),
{
    let services = listed_services(lossy_text(stdout));
    if results.len() == services.len() {
        law_every_enabled_service_is_served(
            servers,
            status,
            stdout,
            stderr,
            results,
            flushed,
            reloaded,
        );
        assert forall|i: int| 0 <= i < results.len() implies (dns::run_failure(
            #[trigger] results[i],
        ) is None <==> went_well(results[i])) by {}
    }
}

/// The notes grow service by service: one that went well adds none; one that did
/// not adds its name in quotes with what it said, trimmed, or that it could not be
/// started and why.
pub proof fn law_notes(
    clearing: bool,
    services: Seq<Seq<char>>,
    service: Seq<char>,
    results: Seq<CommandOutcomeView>,
)
    requires
        services.len() < results.len(),
    ensures
        ({
            let what = if clearing {
                "setdnsservers empty "@
            } else {
                "setdnsservers "@
            } + debug_text(service) + ": "@;
            dns::all_notes(clearing, services.push(service), results) == dns::all_notes(
                clearing,
                services,
                results,
            ) + match results[services.len() as int] {
                CommandOutcomeView::Finished { success, status, stdout, stderr } => if success {
                    Seq::<Seq<char>>::empty()
                } else {
                    seq![what + trimmed(lossy_text(stderr))]
                },
                CommandOutcomeView::NotStarted { error } => seq![
                    what + ("spawn failed: "@ + error),
                ],
            }
        }),
        dns::all_notes(clearing, Seq::empty(), results) == Seq::<Seq<char>>::empty(),
{
    let all = services.push(service);
    assert(all.drop_last() == services);
    assert(all.last() == service);
    let before = dns::all_notes(clearing, services, results);
    assert(before + Seq::<Seq<char>>::empty() == before);
    assert forall|note: Seq<char>| #[trigger] before.push(note) == before + seq![note] by {}
}

/// What ends a change of DNS early, and with which words: a listing that could not
/// be started or failed, and a flush or a reload that could not be started.
pub proof fn law_dns_on_macos_fails(
    task: dns::DnsTaskView,
    status: Seq<char>,
    stdout: Seq<u8>,
    stderr: Seq<u8>,
    error: Seq<char>,
)
    ensures
        ({
            let failed = CommandOutcomeView::Finished { success: false, status, stdout, stderr };
            let not_started = CommandOutcomeView::NotStarted { error };
            &&& task.stage == dns::DnsStage::Listing ==> dns::dns_step(task, not_started).1
                == CommandStepView::Done(
                Err("spawning networksetup -listallnetworkservices: "@ + error),
            )
            &&& task.stage == dns::DnsStage::Listing ==> dns::dns_step(task, failed).1
                == CommandStepView::Done(
                Err("networksetup -listallnetworkservices failed: "@ + lossy_text(stderr)),
            )
            &&& task.stage == dns::DnsStage::Flushing ==> dns::dns_step(task, not_started).1
                == CommandStepView::Done(Err("dscacheutil -flushcache: "@ + error))
            &&& task.stage == dns::DnsStage::Reloading ==> dns::dns_step(task, not_started).1
                == CommandStepView::Done(Err("killall -HUP mDNSResponder: "@ + error))
        }),
{
}

// ---------------------------------------------------------------------------
// Linux
// ---------------------------------------------------------------------------

proof fn lemma_no_dev(words: Seq<Seq<char>>, rest: Seq<Seq<char>>)
    requires
        !words.contains("dev"@),
        rest.len() > 1 ==> rest[0] == "dev"@,
    ensures
        word_after_dev(words + rest) == if rest.len() > 1 {
            Some(rest[1])
        } else {
            None
        },
    decreases words.len(),
{
    let all = words + rest;
    if words.len() == 0 {
        assert(all == rest);
    } else {
        assert(words.contains(words[0]));
        let less = words.drop_first();
        assert forall|i: int| 0 <= i < less.len() implies less[i] != "dev"@ by {
            assert(words.contains(words[i + 1]));
        }
        assert(all.drop_first() == less + rest);
        lemma_no_dev(less, rest);
    }
}

/// The interface of a route is the word behind the first `dev`, whatever stands
/// around the two; without a `dev`, or with nothing behind it, there is none.
pub proof fn law_interface(
    text: Seq<char>,
    before: Seq<Seq<char>>,
    iface: Seq<char>,
    after: Seq<Seq<char>>,
)
    requires
        !before.contains("dev"@),
    ensures
        split_words(text) == before + seq!["dev"@, iface] + after ==> route_iface(text) == Some(
            iface,
        ),
        split_words(text) == before ==> route_iface(text) == None::<Seq<char>>,
        split_words(text) == before + seq!["dev"@] ==> route_iface(text) == None::<Seq<char>>,
{
    let none = Seq::<Seq<char>>::empty();
    assert(before + seq!["dev"@, iface] + after == before + (seq!["dev"@, iface] + after));
    lemma_no_dev(before, seq!["dev"@, iface] + after);
    lemma_no_dev(before, none);
    assert(before + none == before);
    lemma_no_dev(before, seq!["dev"@]);
}

/// With a known route, setting gives the route's interface the given servers as
/// they are and every domain, and flushes the cache; clearing reverts the interface
/// and flushes the cache. Setting is a success once the servers are set, clearing
/// once the interface is reverted.
pub proof fn law_dns_on_linux(
    servers: Seq<Seq<char>>,
    route: CommandOutcomeView,
    changed: CommandOutcomeView,
    claimed: CommandOutcomeView,
    flushed: CommandOutcomeView,
)
    requires
        went_well(route),
        went_well(changed),
        claimed is Finished,
        flushed is Finished,
    ensures
        route_iface(lossy_text(route->stdout)) matches Some(iface) ==> {
            let flush = CommandStepView::Run(
                CommandLineView { program: "resolvectl"@, args: seq!["flush-caches"@] },
            );
            &&& dns_linux::dns_steps(
                dns_linux::fresh_task(Some(servers)),
                seq![route, changed, claimed, flushed],
            ) == seq![
                CommandStepView::Run(
                    CommandLineView {
                        program: "resolvectl"@,
                        args: seq!["dns"@, iface] + servers,
                    },
                ),
                CommandStepView::Run(
                    CommandLineView {
                        program: "resolvectl"@,
                        args: seq!["domain"@, iface, "~."@],
                    },
                ),
                flush,
                CommandStepView::Done(Ok(())),
            ]
            &&& dns_linux::dns_steps(
                dns_linux::fresh_task(None),
                seq![route, changed, flushed],
            ) == seq![
                CommandStepView::Run(
                    CommandLineView { program: "resolvectl"@, args: seq!["revert"@, iface] },
                ),
                flush,
                CommandStepView::Done(Ok(())),
            ]
        },
{
    law_set(servers, route, changed, claimed, flushed);
    law_clear(route, changed, flushed);
}

/// What ends a change of DNS early, and with which words: no route or no interface
/// in it, servers that were refused, a revert that was refused, and any program
/// that could not be started.
pub proof fn law_dns_on_linux_fails(
    task: dns_linux::DnsTaskView,
    status: Seq<char>,
    stdout: Seq<u8>,
    stderr: Seq<u8>,
    error: Seq<char>,
)
    ensures
        ({
            let words = trimmed(lossy_text(stderr));
            let failed = dns_linux::dns_step(
                task,
                CommandOutcomeView::Finished { success: false, status, stdout, stderr },
            ).1;
            let not_started = dns_linux::dns_step(
                task,
                CommandOutcomeView::NotStarted { error },
            ).1;
            let routed = dns_linux::dns_step(
                task,
                CommandOutcomeView::Finished { success: true, status, stdout, stderr },
            ).1;
            match task.stage {
                dns_linux::DnsStageView::Routing => {
                    &&& failed == CommandStepView::Done(
                        Err("`ip route get 1.1.1.1` exit "@ + status + ": "@ + words),
                    )
                    &&& not_started == CommandStepView::Done(
                        Err("spawning `ip route get 1.1.1.1`: "@ + error),
                    )
                    &&& route_iface(lossy_text(stdout)) is None ==> routed
                        == CommandStepView::Done(
                        Err(
                            "no `dev <iface>` in `ip route get 1.1.1.1` output: "@ + trimmed(
                                lossy_text(stdout),
                            ),
                        ),
                    )
                },
                dns_linux::DnsStageView::Setting(_) => {
                    &&& failed == CommandStepView::Done(Err("resolvectl dns failed: "@ + words))
                    &&& not_started == CommandStepView::Done(
                        Err("spawning resolvectl dns: "@ + error),
                    )
                },
                dns_linux::DnsStageView::Claiming => not_started == CommandStepView::Done(
                    Err("spawning resolvectl domain: "@ + error),
                ),
                dns_linux::DnsStageView::Reverting => {
                    &&& failed == CommandStepView::Done(Err("resolvectl revert failed: "@ + words))
                    &&& not_started == CommandStepView::Done(
                        Err("spawning resolvectl revert: "@ + error),
                    )
                },
                dns_linux::DnsStageView::Flushing => not_started == CommandStepView::Done(
                    Err("spawning resolvectl flush-caches: "@ + error),
                ),
            }
        }),
{
}

} // verus!
