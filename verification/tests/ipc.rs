use sc_helper::endian::be_bytes;
use sc_helper::ipc::freshness::timestamp_of;
use sc_helper::ipc::signing::{constant_time_eq, hmac_texts_match, signing_bytes};
use sc_helper::ipc::{
    canonical_command_bytes, compute_hmac, now_nanos, read_frame, timestamp_fresh,
    timestamp_fresh_at, verify_hmac, write_frame, Command, FrameError, FrameStep, Request,
    MAX_FRAME_BYTES, REPLAY_WINDOW_NANOS,
};

fn start(config_dir: &str, config_file: &str, log_file: &str) -> Command {
    Command::StartMihomo {
        config_dir: config_dir.into(),
        config_file: config_file.into(),
        log_file: log_file.into(),
    }
}

fn set_dns(servers: &[&str]) -> Command {
    Command::SetDns { servers: servers.iter().map(|s| s.to_string()).collect() }
}

fn canonical(command: &Command) -> String {
    String::from_utf8(canonical_command_bytes(command)).unwrap()
}

#[test]
fn hmac_round_trip() {
    let secret = b"test-secret";
    let cmd = Command::Ping;
    let ts = 1234567890_u64;
    let mac = compute_hmac(secret, ts, &cmd);
    let req = Request { timestamp_nanos: ts, hmac: mac, command: cmd };
    assert!(verify_hmac(secret, &req));
}

#[test]
fn hmac_reject_tampered_command() {
    let secret = b"test-secret";
    let cmd_a = Command::Ping;
    let cmd_b = Command::StopMihomo;
    let ts = 1_u64;
    let mac = compute_hmac(secret, ts, &cmd_a);
    let req = Request { timestamp_nanos: ts, hmac: mac, command: cmd_b };
    assert!(!verify_hmac(secret, &req));
}

#[test]
fn hmac_reject_wrong_secret() {
    let cmd = Command::Ping;
    let ts = 1_u64;
    let mac = compute_hmac(b"secret-a", ts, &cmd);
    let req = Request { timestamp_nanos: ts, hmac: mac, command: cmd };
    assert!(!verify_hmac(b"secret-b", &req));
}

#[test]
fn timestamp_fresh_recent_ok() {
    assert!(timestamp_fresh(now_nanos().unwrap()));
}

#[test]
fn timestamp_fresh_far_past_rejected() {
    assert!(!timestamp_fresh(now_nanos().unwrap().saturating_sub(60_000_000_000)));
}

#[test]
fn canonical_command_stable() {
    let cmd = start("/tmp/x", "config.yaml", "/tmp/y.log");
    let a = canonical_command_bytes(&cmd);
    let b = canonical_command_bytes(&cmd);
    assert_eq!(a, b);
    let s = String::from_utf8(a).unwrap();
    assert!(s.starts_with(r#"{"kind":"start_mihomo","config_dir":"/tmp/x""#));
}

#[test]
fn canonical_text_of_every_kind() {
    assert_eq!(canonical(&Command::Ping), r#"{"kind":"ping"}"#);
    assert_eq!(canonical(&Command::StopMihomo), r#"{"kind":"stop_mihomo"}"#);
    assert_eq!(canonical(&Command::ClearDns), r#"{"kind":"clear_dns"}"#);
    assert_eq!(canonical(&Command::GetVersion), r#"{"kind":"get_version"}"#);
    assert_eq!(canonical(&Command::Shutdown), r#"{"kind":"shutdown"}"#);
    assert_eq!(
        canonical(&start("/tmp/x", "config.yaml", "/tmp/y.log")),
        r#"{"kind":"start_mihomo","config_dir":"/tmp/x","config_file":"config.yaml","log_file":"/tmp/y.log"}"#
    );
    assert_eq!(canonical(&set_dns(&[])), r#"{"kind":"set_dns","servers":[]}"#);
    assert_eq!(
        canonical(&set_dns(&["198.18.0.1", "1.1.1.1", "::1"])),
        r#"{"kind":"set_dns","servers":["198.18.0.1","1.1.1.1","::1"]}"#
    );
}

#[test]
fn canonical_text_escapes_strings() {
    assert_eq!(
        canonical(&start("a\"b\\c", "\u{8}\t\n\u{c}\r\u{1}\u{1f}", "/\u{7f}\u{e9}\u{1f600}")),
        "{\"kind\":\"start_mihomo\",\"config_dir\":\"a\\\"b\\\\c\",\
         \"config_file\":\"\\b\\t\\n\\f\\r\\u0001\\u001f\",\
         \"log_file\":\"/\u{7f}\u{e9}\u{1f600}\"}"
    );
}

#[test]
fn canonical_text_parses_back() {
    let dir = "quote \" backslash \\ newline \n nul \u{0} snow \u{2603}";
    let bytes = canonical_command_bytes(&start(dir, "c.yaml", ""));
    let value: serde_json::Value = serde_json::from_slice(&bytes).unwrap();
    assert_eq!(value["kind"], "start_mihomo");
    assert_eq!(value["config_dir"], dir);
    assert_eq!(value["config_file"], "c.yaml");
    assert_eq!(value["log_file"], "");
    let bytes = canonical_command_bytes(&set_dns(&["a,b", "]", "\""]));
    let value: serde_json::Value = serde_json::from_slice(&bytes).unwrap();
    assert_eq!(value["servers"][0], "a,b");
    assert_eq!(value["servers"][1], "]");
    assert_eq!(value["servers"][2], "\"");
}

#[test]
fn canonical_text_does_not_confuse_commands() {
    let a = canonical_command_bytes(&set_dns(&["1.1.1.1\",\"8.8.8.8"]));
    let b = canonical_command_bytes(&set_dns(&["1.1.1.1", "8.8.8.8"]));
    assert_ne!(a, b);
    let a = canonical_command_bytes(&start("x\",\"config_file\":\"y", "z", ""));
    let b = canonical_command_bytes(&start("x", "y\",\"log_file\":\"z", ""));
    assert_ne!(a, b);
}

#[test]
fn hmac_has_its_exact_value() {
    assert_eq!(
        compute_hmac(b"test-secret", 1234567890, &Command::Ping),
        "a78b9c1c939893c20c3d46d84e0958853632927e4d366c4d66d251474c923a07"
    );
    assert_eq!(
        compute_hmac(
            sc_helper::IPC_SECRET.as_bytes(),
            1_700_000_000_000_000_000,
            &set_dns(&["198.18.0.1", "1.1.1.1"])
        ),
        "12469770177fa372d101d9305a47233ea504a9b4e9c0afa2898eb6aaeda4cb08"
    );
}

#[test]
fn signing_bytes_are_timestamp_then_command() {
    assert_eq!(
        signing_bytes(0x0102_0304_0506_0708, &Command::Ping),
        b"\x01\x02\x03\x04\x05\x06\x07\x08{\"kind\":\"ping\"}".to_vec()
    );
    assert_ne!(
        signing_bytes(1, &Command::Ping),
        signing_bytes(2, &Command::Ping)
    );
}

#[test]
fn hmac_reject_tampered_timestamp() {
    let secret = b"test-secret";
    let mac = compute_hmac(secret, 1, &Command::Ping);
    let req = Request { timestamp_nanos: 2, hmac: mac, command: Command::Ping };
    assert!(!verify_hmac(secret, &req));
}

#[test]
fn hmac_is_read_in_either_case() {
    let secret = b"test-secret";
    let mac = compute_hmac(secret, 7, &Command::Ping).to_uppercase();
    let req = Request { timestamp_nanos: 7, hmac: mac, command: Command::Ping };
    assert!(verify_hmac(secret, &req));
}

#[test]
fn hmac_reject_malformed_text() {
    let secret = b"test-secret";
    let good = compute_hmac(secret, 7, &Command::Ping);
    let cases = vec![
        String::new(),
        "zz".repeat(32),
        good[..63].to_string(),
        good[..62].to_string(),
        format!("{}00", good),
        "00".repeat(32),
        "\u{e9}".repeat(32),
    ];
    for hmac in cases {
        let req = Request { timestamp_nanos: 7, hmac, command: Command::Ping };
        assert!(!verify_hmac(secret, &req));
    }
}

#[test]
fn hmac_texts_compare_by_their_bytes() {
    assert!(hmac_texts_match("00fF", "00Ff"));
    assert!(hmac_texts_match("", ""));
    assert!(!hmac_texts_match("00ff", "00fe"));
    assert!(!hmac_texts_match("00f", "00f"));
    assert!(!hmac_texts_match("xx", "xx"));
}

#[test]
fn constant_time_eq_compares() {
    assert!(constant_time_eq(b"", b""));
    assert!(constant_time_eq(b"abc", b"abc"));
    assert!(!constant_time_eq(b"abc", b"abd"));
    assert!(!constant_time_eq(b"abc", b"ab"));
}

#[test]
fn freshness_at_the_edges_of_the_window() {
    let now = 1_000_000_000_000_u64;
    assert_eq!(REPLAY_WINDOW_NANOS, 30_000_000_000);
    assert!(timestamp_fresh_at(now, now));
    assert!(timestamp_fresh_at(now, now - REPLAY_WINDOW_NANOS));
    assert!(timestamp_fresh_at(now, now + REPLAY_WINDOW_NANOS));
    assert!(!timestamp_fresh_at(now, now - REPLAY_WINDOW_NANOS - 1));
    assert!(!timestamp_fresh_at(now, now + REPLAY_WINDOW_NANOS + 1));
    assert!(!timestamp_fresh_at(0, u64::MAX));
    assert!(!timestamp_fresh_at(u64::MAX, 0));
}

#[test]
fn timestamp_fresh_far_future_rejected() {
    assert!(!timestamp_fresh(now_nanos().unwrap() + 60_000_000_000));
}

#[test]
fn clock_reads_after_2020() {
    assert!(now_nanos().unwrap() > 1_577_836_800_000_000_000);
}

#[test]
fn timestamps_wrap_at_64_bits() {
    assert_eq!(timestamp_of(None), None);
    assert_eq!(timestamp_of(Some(5)), Some(5));
    assert_eq!(timestamp_of(Some(u64::MAX as u128)), Some(u64::MAX));
    assert_eq!(timestamp_of(Some(u64::MAX as u128 + 3)), Some(2));
}

#[test]
fn big_endian_bytes() {
    assert_eq!(be_bytes(0x0102_0304, 4), vec![1, 2, 3, 4]);
    assert_eq!(be_bytes(u64::MAX, 8), vec![255; 8]);
    assert_eq!(be_bytes(0x1_0000_0001, 4), vec![0, 0, 0, 1]);
    assert_eq!(be_bytes(9, 0), Vec::<u8>::new());
}

#[test]
fn frame_round_trip_byte_by_byte() {
    let body = b"{\"kind\":\"pong\"}";
    let bytes = write_frame(body).unwrap();
    assert_eq!(&bytes[..4], &[0, 0, 0, 15]);
    assert_eq!(&bytes[4..], body);
    for n in 0..bytes.len() {
        match read_frame(&bytes[..n]) {
            FrameStep::More(more) => {
                let want = if n < 4 { 4 - n } else { bytes.len() - n };
                assert_eq!(more, want);
            }
            other => panic!("{:?}", other),
        }
    }
    assert!(matches!(read_frame(&bytes), FrameStep::Body(b) if b == body.to_vec()));
}

#[test]
fn frame_with_empty_body() {
    let bytes = write_frame(b"").unwrap();
    assert_eq!(bytes, vec![0, 0, 0, 0]);
    assert!(matches!(read_frame(&bytes), FrameStep::Body(b) if b.is_empty()));
}

#[test]
fn frame_at_the_cap_is_taken() {
    let body = vec![7u8; MAX_FRAME_BYTES];
    let bytes = write_frame(&body).unwrap();
    assert_eq!(&bytes[..4], &[0, 16, 0, 0]);
    assert!(matches!(read_frame(&bytes[..4]), FrameStep::More(n) if n == MAX_FRAME_BYTES));
    assert!(matches!(read_frame(&bytes), FrameStep::Body(b) if b == body));
}

#[test]
fn frame_over_the_cap_is_refused() {
    let body = vec![7u8; MAX_FRAME_BYTES + 1];
    let error = write_frame(&body).unwrap_err();
    assert_eq!(error, FrameError::TooLarge { len: 1048577 });
    assert_eq!(error.message(), "frame too large: 1048577 bytes (cap 1048576)");
    assert!(matches!(
        read_frame(&[0, 16, 0, 1]),
        FrameStep::Refused(FrameError::TooLarge { len: 1048577 })
    ));
    assert!(matches!(
        read_frame(&[255, 255, 255, 255, 1, 2]),
        FrameStep::Refused(FrameError::TooLarge { len: 4294967295 })
    ));
}
