use sc_helper::client::{ping_command, ping_report, send, unknown_command};
use sc_helper::ipc::{verify_hmac, Command, ErrorCode, Response};
use sc_helper::IPC_SECRET;

#[test]
fn ping_arguments() {
    assert!(matches!(ping_command(None), Ok(Command::Ping)));
    assert!(matches!(ping_command(Some("ping")), Ok(Command::Ping)));
    assert!(matches!(ping_command(Some("version")), Ok(Command::GetVersion)));
    assert_eq!(
        ping_command(Some("sta\"rt\n")).unwrap_err(),
        "unknown command \"sta\\\"rt\\n\" (try `ping` or `version`)"
    );
    assert_eq!(
        ping_command(Some("")).unwrap_err(),
        "unknown command \"\" (try `ping` or `version`)"
    );
    assert_eq!(unknown_command("<x>"), "unknown command <x> (try `ping` or `version`)");
}

#[test]
fn sent_requests_are_signed() {
    let request = send(123, Command::ClearDns);
    assert_eq!(request.timestamp_nanos, 123);
    assert_eq!(request.hmac.len(), 64);
    assert!(matches!(request.command, Command::ClearDns));
    assert!(verify_hmac(IPC_SECRET.as_bytes(), &request));
}

fn report(response: Response) -> (bool, String, i32) {
    let r = ping_report(&response);
    (r.to_stderr, r.text, r.exit_code)
}

#[test]
fn only_a_pong_exits_zero() {
    assert_eq!(report(Response::Pong), (false, "pong".into(), 0));
    assert_eq!(
        report(Response::Version { version: "0.1.0".into(), build_sha: "abc".into() }),
        (false, "v=0.1.0 sha=abc".into(), 1)
    );
    assert_eq!(
        report(Response::Started { pid: 4294967295 }),
        (true, "unexpected response: Started { pid: 4294967295 }".into(), 3)
    );
    assert_eq!(report(Response::Stopped), (true, "unexpected response: Stopped".into(), 3));
    assert_eq!(report(Response::DnsSet), (true, "unexpected response: DnsSet".into(), 3));
    assert_eq!(
        report(Response::DnsCleared),
        (true, "unexpected response: DnsCleared".into(), 3)
    );
    assert_eq!(
        report(Response::ShuttingDown),
        (true, "unexpected response: ShuttingDown".into(), 3)
    );
}

#[test]
fn errors_are_reported_by_name() {
    for code in [
        ErrorCode::BadHmac,
        ErrorCode::Replayed,
        ErrorCode::BadRequest,
        ErrorCode::AlreadyRunning,
        ErrorCode::NotRunning,
        ErrorCode::SpawnFailed,
        ErrorCode::Internal,
    ] {
        assert_eq!(
            report(Response::Error { code, message: "why".into() }),
            (true, format!("helper error: {:?} \u{2014} why", code), 2)
        );
    }
}
