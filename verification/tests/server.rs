use sc_helper::client::send;
use sc_helper::ipc::{
    compute_hmac, now_nanos, read_frame, write_frame, Command, ErrorCode, FrameStep, Request,
    Response, REPLAY_WINDOW_NANOS,
};
use sc_helper::paths::Platform;
use sc_helper::service::server::{
    dispatch, dns_cleared_response, dns_set_response, handle_connection, handle_request,
    handle_request_at, serve, started_response, stopped_response, HelperContext, RequestAction,
    ServeAction, ServeEvent,
};
use sc_helper::service::supervisor::StartError;
use sc_helper::{build_sha, HELPER_VERSION, IPC_SECRET};

fn helper(platform: Platform) -> HelperContext {
    HelperContext {
        platform,
        mihomo_path: "/opt/helper/sc-mihomo".into(),
        build_sha: build_sha(None),
    }
}

fn signed_now(command: Command) -> Request {
    send(now_nanos().unwrap(), command)
}

fn reply(action: RequestAction) -> Response {
    match action {
        RequestAction::Reply(response) => response,
        other => panic!("{:?}", other),
    }
}

fn refusal(action: RequestAction) -> (ErrorCode, String) {
    match reply(action) {
        Response::Error { code, message } => (code, message),
        other => panic!("{:?}", other),
    }
}

#[test]
fn daemon_round_trip() {
    let helper = helper(Platform::MacOs);

    let resp = reply(handle_request(signed_now(Command::Ping), &helper));
    assert!(matches!(resp, Response::Pong), "ping: got {:?}", resp);

    match reply(handle_request(signed_now(Command::GetVersion), &helper)) {
        Response::Version { version, build_sha } => {
            assert_eq!(version, HELPER_VERSION);
            assert!(!build_sha.is_empty(), "build_sha empty");
        }
        other => panic!("get_version: got {:?}", other),
    }

    let tampered = Request {
        timestamp_nanos: now_nanos().unwrap(),
        hmac: "00".repeat(32),
        command: Command::Ping,
    };
    let (code, _) = refusal(handle_request(tampered, &helper));
    assert_eq!(code, ErrorCode::BadHmac);

    let action = handle_request(signed_now(Command::Shutdown), &helper);
    assert!(
        matches!(action, RequestAction::ReplyAndExit(Response::ShuttingDown)),
        "shutdown: got {:?}",
        action
    );
}

#[test]
fn helper_knows_itself() {
    let exe = || Some("/opt/helper/sc-helper".to_string());
    for (git, build) in [(Some("abc123\n"), "abc123"), (Some(" \n"), "unknown"), (None, "unknown")] {
        let helper = HelperContext::new(Platform::Linux, exe(), git);
        assert_eq!(helper.platform, Platform::Linux);
        assert_eq!(helper.mihomo_path, "/opt/helper/sc-mihomo");
        match reply(handle_request(signed_now(Command::GetVersion), &helper)) {
            Response::Version { version, build_sha } => {
                assert_eq!(version, HELPER_VERSION);
                assert_eq!(build_sha, build);
            }
            other => panic!("{:?}", other),
        }
    }
    let helper = HelperContext::new(Platform::Linux, None, None);
    assert_eq!(helper.mihomo_path, "/usr/lib/sc-helper/sc-mihomo");
}

#[test]
fn stale_requests_are_replays() {
    let now = 1_700_000_000_000_000_000;
    let helper = helper(Platform::Linux);
    let at = |ts: u64| handle_request_at(Some(now), send(ts, Command::Ping), &helper);
    assert!(matches!(reply(at(now - REPLAY_WINDOW_NANOS)), Response::Pong));
    assert!(matches!(reply(at(now + REPLAY_WINDOW_NANOS)), Response::Pong));
    for ts in [now - REPLAY_WINDOW_NANOS - 1, now + REPLAY_WINDOW_NANOS + 1, 0, u64::MAX] {
        assert_eq!(
            refusal(at(ts)),
            (ErrorCode::Replayed, "timestamp outside \u{b1}30s window".to_string())
        );
    }
    let action = handle_request_at(None, send(now, Command::Ping), &helper);
    assert_eq!(refusal(action).0, ErrorCode::Replayed);
}

#[test]
fn replay_is_checked_before_the_hmac() {
    let request = Request { timestamp_nanos: 0, hmac: "junk".into(), command: Command::Ping };
    let action = handle_request_at(Some(u64::MAX), request, &helper(Platform::MacOs));
    assert_eq!(refusal(action).0, ErrorCode::Replayed);
}

#[test]
fn unsigned_requests_are_refused() {
    let ts = now_nanos().unwrap();
    let helper = helper(Platform::MacOs);
    let requests = vec![
        Request { timestamp_nanos: ts, hmac: String::new(), command: Command::Shutdown },
        Request {
            timestamp_nanos: ts,
            hmac: compute_hmac(b"another secret", ts, &Command::Shutdown),
            command: Command::Shutdown,
        },
        Request {
            timestamp_nanos: ts,
            hmac: compute_hmac(IPC_SECRET.as_bytes(), ts, &Command::Ping),
            command: Command::Shutdown,
        },
        Request {
            timestamp_nanos: ts,
            hmac: compute_hmac(IPC_SECRET.as_bytes(), ts - 1, &Command::Shutdown),
            command: Command::Shutdown,
        },
    ];
    for request in requests {
        assert_eq!(
            refusal(handle_request(request, &helper)),
            (
                ErrorCode::BadHmac,
                "HMAC mismatch \u{2014} helper / GUI version skew?".to_string()
            )
        );
    }
}

#[test]
fn start_runs_the_helpers_own_binary() {
    let command = Command::StartMihomo {
        config_dir: "/etc/m".into(),
        config_file: "c.yaml".into(),
        log_file: "/tmp/m.log".into(),
    };
    match handle_request(signed_now(command), &helper(Platform::MacOs)) {
        RequestAction::Start(cfg) => {
            assert_eq!(cfg.mihomo_path, "/opt/helper/sc-mihomo");
            assert_eq!(cfg.config_dir, "/etc/m");
            assert_eq!(cfg.config_file, "c.yaml");
            assert_eq!(cfg.log_file, "/tmp/m.log");
        }
        other => panic!("{:?}", other),
    }
}

#[test]
fn dns_commands_go_by_the_platform() {
    let set = || Command::SetDns { servers: vec!["198.18.0.1".into()] };
    for platform in [Platform::MacOs, Platform::Linux] {
        assert!(matches!(dispatch(set(), &helper(platform)),
            RequestAction::SetDns(s) if s == vec!["198.18.0.1".to_string()]));
        assert!(matches!(dispatch(Command::ClearDns, &helper(platform)),
            RequestAction::ClearDns));
    }
    let windows = helper(Platform::Windows);
    assert!(matches!(reply(dispatch(set(), &windows)), Response::DnsSet));
    assert!(matches!(reply(dispatch(Command::ClearDns, &windows)), Response::DnsCleared));
    assert!(matches!(dispatch(Command::StopMihomo, &windows), RequestAction::Stop));
}

#[test]
fn unparsable_frames_are_bad_requests() {
    let action = handle_connection(Err("expected value at line 1".into()), &helper(Platform::Linux));
    assert_eq!(
        refusal(action),
        (
            ErrorCode::BadRequest,
            "parsing IPC request JSON: expected value at line 1".to_string()
        )
    );
    let action = handle_connection(Ok(signed_now(Command::Ping)), &helper(Platform::Linux));
    assert!(matches!(reply(action), Response::Pong));
}

#[test]
fn framed_request_is_carried_out() {
    let request = signed_now(Command::GetVersion);
    let json = format!(
        "{{\"timestamp_nanos\":{},\"hmac\":\"{}\",\"command\":{}}}",
        request.timestamp_nanos,
        request.hmac,
        String::from_utf8(sc_helper::ipc::canonical_command_bytes(&request.command)).unwrap()
    );
    let bytes = write_frame(json.as_bytes()).unwrap();
    let body = match read_frame(&bytes) {
        FrameStep::Body(body) => body,
        other => panic!("{:?}", other),
    };
    let value: serde_json::Value = serde_json::from_slice(&body).unwrap();
    let received = Request {
        timestamp_nanos: value["timestamp_nanos"].as_u64().unwrap(),
        hmac: value["hmac"].as_str().unwrap().to_string(),
        command: match value["command"]["kind"].as_str() {
            Some("get_version") => Command::GetVersion,
            other => panic!("{:?}", other),
        },
    };
    let action = handle_connection(Ok(received), &helper(Platform::MacOs));
    assert!(matches!(reply(action), Response::Version { .. }));
}

#[test]
fn start_responses() {
    assert!(matches!(started_response(Ok(77)), Response::Started { pid: 77 }));
    let outside = StartError::ConfigFileOutside("../x".to_string());
    assert!(matches!(started_response(Err(outside)),
        Response::Error { code: ErrorCode::SpawnFailed, message }
            if message == "config file not inside config_dir: ../x"));
    match started_response(Err(StartError::AlreadyRunning)) {
        Response::Error { code, message } => {
            assert_eq!(code, ErrorCode::AlreadyRunning);
            assert_eq!(message, "mihomo already running");
        }
        other => panic!("{:?}", other),
    }
    let path = "/tmp/already running/sc-mihomo".to_string();
    match started_response(Err(StartError::BinaryNotFound(path))) {
        Response::Error { code, message } => {
            assert_eq!(code, ErrorCode::SpawnFailed);
            assert_eq!(message, "mihomo binary not found at /tmp/already running/sc-mihomo");
        }
        other => panic!("{:?}", other),
    }
}

#[test]
fn stop_and_dns_responses() {
    assert!(matches!(stopped_response(Ok(())), Response::Stopped));
    assert!(matches!(dns_set_response(Ok(())), Response::DnsSet));
    assert!(matches!(dns_cleared_response(Ok(())), Response::DnsCleared));
    for response in [
        stopped_response(Err("EIO".into())),
        dns_set_response(Err("EIO".into())),
        dns_cleared_response(Err("EIO".into())),
    ] {
        assert!(matches!(response,
            Response::Error { code: ErrorCode::Internal, message } if message == "EIO"));
    }
}

#[test]
fn server_comes_up_and_goes_down() {
    let path = "/run/x.sock";
    assert!(matches!(serve(path, ServeEvent::Begin), ServeAction::CheckSocket));
    assert!(matches!(serve(path, ServeEvent::SocketChecked(true)), ServeAction::RemoveStale));
    assert!(matches!(serve(path, ServeEvent::SocketChecked(false)), ServeAction::Bind));
    assert!(matches!(serve(path, ServeEvent::StaleRemoved(Ok(()))), ServeAction::Bind));
    assert!(matches!(serve(path, ServeEvent::Bound(Ok(()))), ServeAction::SetMode(0o666)));
    assert!(matches!(serve(path, ServeEvent::ModeSet(Ok(()))), ServeAction::Accept));
    assert!(matches!(serve(path, ServeEvent::Accepted(Ok(()))), ServeAction::Handle));
    assert!(matches!(serve(path, ServeEvent::Resumed), ServeAction::Accept));
    assert!(matches!(serve(path, ServeEvent::ShutdownRequested), ServeAction::RemoveSocket));
    assert!(matches!(serve(path, ServeEvent::SocketRemoved), ServeAction::Done(Ok(()))));
}

#[test]
fn server_survives_a_failed_accept_only() {
    let path = "/run/x.sock";
    let failed = || Err("EMFILE".to_string());
    assert!(matches!(serve(path, ServeEvent::Accepted(failed())), ServeAction::Pause(200)));
    assert!(matches!(serve(path, ServeEvent::StaleRemoved(failed())),
        ServeAction::Done(Err(e)) if e == "removing stale socket /run/x.sock: EMFILE"));
    assert!(matches!(serve(path, ServeEvent::Bound(failed())),
        ServeAction::Done(Err(e)) if e == "binding /run/x.sock: EMFILE"));
    assert!(matches!(serve(path, ServeEvent::ModeSet(failed())),
        ServeAction::Done(Err(e)) if e == "chmod 666 /run/x.sock: EMFILE"));
}
