use sc_helper::service::command::{command, CommandLine, CommandOutcome, CommandStep};
use sc_helper::service::{dns, dns_linux};

fn strings(items: &[&str]) -> Vec<String> {
    items.iter().map(|s| s.to_string()).collect()
}

fn finished(success: bool, stdout: &[u8], stderr: &[u8]) -> CommandOutcome {
    CommandOutcome::Finished {
        success,
        status: if success { "exit status: 0".into() } else { "exit status: 2".into() },
        stdout: stdout.to_vec(),
        stderr: stderr.to_vec(),
    }
}

fn ok() -> CommandOutcome {
    finished(true, b"", b"")
}

fn not_started(error: &str) -> CommandOutcome {
    CommandOutcome::NotStarted { error: error.into() }
}

fn shown(line: &CommandLine) -> String {
    let mut all = vec![line.program.clone()];
    all.extend(line.args.iter().cloned());
    all.join("|")
}

fn runs(step: &CommandStep) -> String {
    match step {
        CommandStep::Run(line) => shown(line),
        other => panic!("{:?}", other),
    }
}

fn failure(step: &CommandStep) -> String {
    match step {
        CommandStep::Done(Err(message)) => message.clone(),
        other => panic!("{:?}", other),
    }
}

fn is_done(step: &CommandStep) -> bool {
    matches!(step, CommandStep::Done(Ok(())))
}

const LISTING: &[u8] = b"An asterisk (*) denotes that a network service is disabled.\n\
Wi-Fi\n*Bluetooth PAN\n\n  USB 10/100/1000 LAN  \r\n";

#[test]
fn command_lines_grow() {
    let line = command("ls").arg("-l").args(&strings(&["a b", "c"]));
    assert_eq!(shown(&line), "ls|-l|a b|c");
}

#[test]
fn mac_services_are_the_enabled_ones() {
    let text = String::from_utf8(LISTING.to_vec()).unwrap();
    assert_eq!(dns::list_services(&text), strings(&["Wi-Fi", "USB 10/100/1000 LAN"]));
    assert_eq!(dns::list_services(""), strings(&[]));
    assert_eq!(dns::list_services("preamble"), strings(&[]));
    assert_eq!(dns::list_services("preamble\n *x\n"), strings(&[]));
}

#[test]
fn mac_set_serves_every_enabled_service() {
    let (mut task, step) = dns::set_dns(&strings(&["198.18.0.1", "1.1.1.1"]));
    assert_eq!(runs(&step), "networksetup|-listallnetworkservices");
    let step = task.advance(finished(true, LISTING, b""));
    assert_eq!(runs(&step), "networksetup|-setdnsservers|Wi-Fi|198.18.0.1|1.1.1.1");
    let step = task.advance(ok());
    assert_eq!(
        runs(&step),
        "networksetup|-setdnsservers|USB 10/100/1000 LAN|198.18.0.1|1.1.1.1"
    );
    let step = task.advance(ok());
    assert_eq!(runs(&step), "dscacheutil|-flushcache");
    let step = task.advance(finished(false, b"", b""));
    assert_eq!(runs(&step), "killall|-HUP|mDNSResponder");
    let step = task.advance(finished(false, b"", b""));
    assert!(is_done(&step));
}

#[test]
fn mac_clear_gives_every_service_back() {
    let (mut task, step) = dns::clear_dns();
    assert_eq!(runs(&step), "networksetup|-listallnetworkservices");
    let step = task.advance(finished(true, b"preamble\nWi-Fi\n", b""));
    assert_eq!(runs(&step), "networksetup|-setdnsservers|Wi-Fi|empty");
    assert_eq!(runs(&task.advance(ok())), "dscacheutil|-flushcache");
    assert_eq!(runs(&task.advance(ok())), "killall|-HUP|mDNSResponder");
    assert!(is_done(&task.advance(ok())));
}

#[test]
fn mac_failed_services_do_not_stop_the_others() {
    let (mut task, _) = dns::set_dns(&strings(&["1.1.1.1"]));
    task.advance(finished(true, b"p\nA \"quoted\"\nB\nC\n", b""));
    let step = task.advance(finished(false, b"", b" no such service\xff\n"));
    assert_eq!(runs(&step), "networksetup|-setdnsservers|B|1.1.1.1");
    let step = task.advance(not_started("ENOENT"));
    assert_eq!(runs(&step), "networksetup|-setdnsservers|C|1.1.1.1");
    task.advance(ok());
    task.advance(ok());
    let step = task.advance(ok());
    assert_eq!(
        failure(&step),
        "setdnsservers partial failure: \
         setdnsservers \"A \\\"quoted\\\"\": no such service\u{fffd}; \
         setdnsservers \"B\": spawn failed: ENOENT"
    );
}

#[test]
fn mac_failed_clear_is_reported() {
    let (mut task, _) = dns::clear_dns();
    task.advance(finished(true, b"p\nWi-Fi\n", b""));
    task.advance(finished(false, b"", b"denied\n"));
    task.advance(ok());
    let step = task.advance(ok());
    assert_eq!(
        failure(&step),
        "clear_dns partial failure: setdnsservers empty \"Wi-Fi\": denied"
    );
}

#[test]
fn mac_notes_and_final_word() {
    assert_eq!(dns::note_text(false, "\"X\"", "bad"), "setdnsservers \"X\": bad");
    assert_eq!(dns::note_text(true, "\"X\"", "bad"), "setdnsservers empty \"X\": bad");
    assert_eq!(dns::final_word(false, &strings(&[])), Ok(()));
    assert_eq!(
        dns::final_word(true, &strings(&["a", "b"])),
        Err("clear_dns partial failure: a; b".to_string())
    );
    assert_eq!(
        dns::final_word(false, &strings(&["a"])),
        Err("setdnsservers partial failure: a".to_string())
    );
}

#[test]
fn mac_ends_early_when_it_cannot_go_on() {
    let (_, step) = dns::set_dns(&strings(&[]));
    assert_eq!(
        failure(&step),
        "set_dns called with empty servers; use clear() to revert to DHCP"
    );
    let (mut task, _) = dns::clear_dns();
    assert_eq!(
        failure(&task.advance(not_started("ENOENT"))),
        "spawning networksetup -listallnetworkservices: ENOENT"
    );
    let (mut task, _) = dns::clear_dns();
    assert_eq!(
        failure(&task.advance(finished(false, b"", b"not root\n"))),
        "networksetup -listallnetworkservices failed: not root\n"
    );
    let (mut task, _) = dns::clear_dns();
    assert_eq!(runs(&task.advance(ok())), "dscacheutil|-flushcache");
    assert_eq!(failure(&task.advance(not_started("E1"))), "dscacheutil -flushcache: E1");
    let (mut task, _) = dns::clear_dns();
    task.advance(ok());
    task.advance(ok());
    assert_eq!(failure(&task.advance(not_started("E2"))), "killall -HUP mDNSResponder: E2");
}

const ROUTE: &[u8] = b"1.1.1.1 via 192.168.1.1 dev wlp3s0 src 192.168.1.42 uid 0\n    cache\n";

#[test]
fn linux_iface_is_the_word_after_dev() {
    let text = String::from_utf8(ROUTE.to_vec()).unwrap();
    assert_eq!(dns_linux::default_iface(&text), Some("wlp3s0".to_string()));
    assert_eq!(dns_linux::default_iface("dev dev x"), Some("dev".to_string()));
    assert_eq!(dns_linux::default_iface("1.1.1.1 dev"), None);
    assert_eq!(dns_linux::default_iface("1.1.1.1 via device eth0"), None);
    assert_eq!(dns_linux::default_iface(""), None);
}

#[test]
fn linux_set_claims_every_domain() {
    let (mut task, step) = dns_linux::set_dns(&strings(&["198.18.0.1", "1.1.1.1"]));
    assert_eq!(runs(&step), "ip|route|get|1.1.1.1");
    let step = task.advance(finished(true, ROUTE, b""));
    assert_eq!(runs(&step), "resolvectl|dns|wlp3s0|198.18.0.1|1.1.1.1");
    assert_eq!(runs(&task.advance(ok())), "resolvectl|domain|wlp3s0|~.");
    assert_eq!(runs(&task.advance(finished(false, b"", b"no"))), "resolvectl|flush-caches");
    assert!(is_done(&task.advance(finished(false, b"", b"no"))));
}

#[test]
fn linux_clear_reverts_the_interface() {
    let (mut task, step) = dns_linux::clear_dns();
    assert_eq!(runs(&step), "ip|route|get|1.1.1.1");
    assert_eq!(runs(&task.advance(finished(true, ROUTE, b""))), "resolvectl|revert|wlp3s0");
    assert_eq!(runs(&task.advance(ok())), "resolvectl|flush-caches");
    assert!(is_done(&task.advance(ok())));
}

#[test]
fn linux_ends_early_when_it_cannot_go_on() {
    let (_, step) = dns_linux::set_dns(&strings(&[]));
    assert_eq!(
        failure(&step),
        "set_dns called with empty servers; use clear_dns() to revert to DHCP"
    );
    let start = || dns_linux::set_dns(&strings(&["1.1.1.1"])).0;
    assert_eq!(
        failure(&start().advance(not_started("ENOENT"))),
        "spawning `ip route get 1.1.1.1`: ENOENT"
    );
    assert_eq!(
        failure(&start().advance(finished(false, b"", b" unreachable\xff \n"))),
        "`ip route get 1.1.1.1` exit exit status: 2: unreachable\u{fffd}"
    );
    assert_eq!(
        failure(&start().advance(finished(true, b" nothing here\n", b""))),
        "no `dev <iface>` in `ip route get 1.1.1.1` output: nothing here"
    );
    let set = || {
        let mut task = start();
        task.advance(finished(true, ROUTE, b""));
        task
    };
    assert_eq!(failure(&set().advance(not_started("E1"))), "spawning resolvectl dns: E1");
    assert_eq!(
        failure(&set().advance(finished(false, b"", b"denied\n"))),
        "resolvectl dns failed: denied"
    );
    let mut task = set();
    task.advance(ok());
    assert_eq!(failure(&task.advance(not_started("E2"))), "spawning resolvectl domain: E2");
    let clear = || {
        let mut task = dns_linux::clear_dns().0;
        task.advance(finished(true, ROUTE, b""));
        task
    };
    assert_eq!(failure(&clear().advance(not_started("E3"))), "spawning resolvectl revert: E3");
    assert_eq!(
        failure(&clear().advance(finished(false, b"", b"denied\n"))),
        "resolvectl revert failed: denied"
    );
    let mut task = clear();
    task.advance(ok());
    assert_eq!(
        failure(&task.advance(not_started("E4"))),
        "spawning resolvectl flush-caches: E4"
    );
}
