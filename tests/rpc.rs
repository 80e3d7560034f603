use axon_rpc::{
    check_handshake, check_version, login_url, Action, Command, CommandKind, ConnectError, Event,
    Frame, Opening, Phase, RpcContext,
};

fn text(s: &str) -> Frame {
    Frame::Text(s.to_string())
}

fn connected_context() -> RpcContext {
    let mut ctx = RpcContext::new();
    let r = ctx.init(Opening::FirstFrame(text(r#"{"major":0,"minor":1}"#)));
    assert!(r.is_ok());
    let acts = ctx.on_event(Event::Woken, false);
    assert!(acts.is_empty());
    assert_eq!(ctx.phase, Phase::Active);
    ctx
}

fn written_json(a: &Action) -> serde_json::Value {
    match a {
        Action::Write(Frame::Text(t)) => serde_json::from_str(t).unwrap(),
        _ => panic!("expected a written text frame"),
    }
}

#[test]
fn serials_count_up_from_zero() {
    let mut ctx = RpcContext::new();
    let got: Vec<u64> = (0..5).map(|_| ctx.next_serial()).collect();
    assert_eq!(got, vec![0, 1, 2, 3, 4]);
    assert_eq!(ctx.serial, 5);
}

#[test]
fn major_mismatch_names_both_versions() {
    match check_version(2, 0, 1, 0) {
        Err(ConnectError::VersionMismatch { server_major, client_major, .. }) => {
            assert_eq!(server_major, 2);
            assert_eq!(client_major, 1);
        }
        _ => panic!("expected a version mismatch"),
    }
}

#[test]
fn minor_mismatch_is_accepted() {
    assert!(check_version(1, 5, 1, 0).is_ok());
}

#[test]
fn handshake_text_decides_by_major() {
    let bad = check_handshake(Opening::FirstFrame(text(r#"{"major":2,"minor":0}"#)), 1, 0);
    assert!(matches!(
        bad,
        Err(ConnectError::VersionMismatch { server_major: 2, server_minor: 0, client_major: 1, client_minor: 0 })
    ));
    let ok = check_handshake(Opening::FirstFrame(text(r#"{"major":1,"minor":5}"#)), 1, 0);
    assert!(ok.is_ok());
}

#[test]
fn handshake_payload_that_does_not_decode() {
    let r = check_handshake(Opening::FirstFrame(text("hello")), 1, 0);
    assert!(matches!(r, Err(ConnectError::BadHandshake(_))));
}

#[test]
fn binary_first_frame_fails_and_stores_nothing() {
    let mut ctx = RpcContext::new();
    let r = ctx.init(Opening::FirstFrame(Frame::Binary(vec![0, 1])));
    assert!(matches!(r, Err(ConnectError::NonTextHandshake)));
    assert!(!ctx.connected);
    assert!(!ctx.wake_pending);
}

#[test]
fn timeout_fails_and_stores_nothing() {
    let mut ctx = RpcContext::new();
    let r = ctx.init(Opening::TimedOut);
    assert!(matches!(r, Err(ConnectError::Timeout)));
    assert!(!ctx.connected);
    assert!(!ctx.wake_pending);
}

#[test]
fn connect_and_read_failures_are_reported() {
    let mut ctx = RpcContext::new();
    let r = ctx.init(Opening::ConnectFailed("refused".to_string()));
    assert!(matches!(r, Err(ConnectError::Connect(ref m)) if m == "refused"));
    let r = ctx.init(Opening::ReadFailed("reset".to_string()));
    assert!(matches!(r, Err(ConnectError::Transport(ref m)) if m == "reset"));
    assert!(!ctx.connected);
}

#[test]
fn compiled_version_handshake_connects_and_wakes() {
    let mut ctx = RpcContext::new();
    let r = ctx.init(Opening::FirstFrame(text(r#"{"major":0,"minor":5}"#)));
    assert!(r.is_ok());
    assert!(ctx.connected);
    assert!(ctx.wake_pending);
    let mut other = RpcContext::new();
    let r = other.init(Opening::FirstFrame(text(r#"{"major":2,"minor":1}"#)));
    assert!(matches!(r, Err(ConnectError::VersionMismatch { server_major: 2, client_major: 0, .. })));
    assert!(!other.connected);
}

#[test]
fn extant_resources_are_subscribed_and_not_forwarded() {
    let mut ctx = connected_context();
    let ev = r#"{"type":"RESOURCES_EXTANT","serial":9,"ids":["A","B"]}"#;
    let acts = ctx.on_event(Event::Frame(text(ev)), false);
    assert_eq!(acts.len(), 1);
    let j = written_json(&acts[0]);
    assert_eq!(j["type"], "SUBSCRIBE");
    assert_eq!(j["serial"], 0);
    assert_eq!(j["ids"], serde_json::Value::from(vec!["A", "B"]));
    assert_eq!(ctx.serial, 1);

    let ev2 = r#"{"type":"RESOURCES_REMOVED","serial":10,"ids":["B"]}"#;
    let acts = ctx.on_event(Event::Frame(text(ev2)), false);
    assert_eq!(acts.len(), 2);
    let j = written_json(&acts[0]);
    assert_eq!(j["type"], "UNSUBSCRIBE");
    assert_eq!(j["serial"], 1);
    assert_eq!(j["ids"], serde_json::Value::from(vec!["B"]));
    assert!(matches!(&acts[1], Action::Forward(t) if t == ev2));
    assert_eq!(ctx.phase, Phase::Active);
}

#[test]
fn other_events_are_forwarded_unchanged() {
    let mut ctx = connected_context();
    let ev = r#"{"type":"RESOURCE_PENDING","serial":3,"id":"x"}"#;
    let acts = ctx.on_event(Event::Frame(text(ev)), false);
    assert_eq!(acts.len(), 1);
    assert!(matches!(&acts[0], Action::Forward(t) if t == ev));
    assert_eq!(ctx.serial, 0);
}

#[test]
fn undecodable_text_is_reported_and_loop_goes_on() {
    let mut ctx = connected_context();
    let acts = ctx.on_event(Event::Frame(text("{not json")), false);
    assert_eq!(acts.len(), 1);
    assert!(matches!(acts[0], Action::GlobalError(_)));
    assert_eq!(ctx.phase, Phase::Active);
    assert!(ctx.connected);
}

#[test]
fn ping_is_answered_with_pong() {
    let mut ctx = connected_context();
    let acts = ctx.on_event(Event::Frame(Frame::Ping(vec![7, 8])), false);
    assert_eq!(acts.len(), 1);
    assert!(matches!(&acts[0], Action::Write(Frame::Pong(p)) if p == &vec![7u8, 8]));
    assert_eq!(ctx.phase, Phase::Active);
}

#[test]
fn close_without_shutdown_drops_socket_and_waits() {
    let mut ctx = connected_context();
    let acts = ctx.on_event(Event::Frame(Frame::Close(None)), false);
    assert_eq!(acts.len(), 2);
    assert!(matches!(acts[0], Action::ServerClose(None)));
    assert!(matches!(acts[1], Action::ClearSocket));
    assert_eq!(ctx.phase, Phase::WaitInit);
    assert!(!ctx.connected);
}

#[test]
fn close_with_shutdown_terminates() {
    let mut ctx = connected_context();
    let acts = ctx.on_event(Event::Frame(Frame::Close(None)), true);
    assert_eq!(acts.len(), 1);
    assert!(matches!(acts[0], Action::ServerClose(None)));
    assert_eq!(ctx.phase, Phase::Terminated);
}

#[test]
fn wake_while_active_ends_the_epoch() {
    let mut ctx = connected_context();
    ctx.wake();
    let acts = ctx.on_event(Event::Woken, true);
    assert!(acts.is_empty());
    assert_eq!(ctx.phase, Phase::Terminated);

    let mut ctx = connected_context();
    ctx.wake();
    let acts = ctx.on_event(Event::Woken, false);
    assert_eq!(acts.len(), 1);
    assert!(matches!(acts[0], Action::ClearSocket));
    assert_eq!(ctx.phase, Phase::WaitInit);
    assert!(!ctx.wake_pending);
}

#[test]
fn read_error_ends_the_epoch() {
    let mut ctx = connected_context();
    let acts = ctx.on_event(Event::ReadFailed("broken pipe".to_string()), true);
    assert_eq!(acts.len(), 1);
    assert!(matches!(&acts[0], Action::GlobalError(m) if m == "broken pipe"));
    assert_eq!(ctx.phase, Phase::Terminated);
}

#[test]
fn binary_frame_is_a_protocol_violation() {
    let mut ctx = connected_context();
    let acts = ctx.on_event(Event::Frame(Frame::Binary(vec![1])), false);
    assert_eq!(acts.len(), 2);
    assert!(matches!(acts[0], Action::ProtocolViolation));
    assert!(matches!(acts[1], Action::ClearSocket));
    assert_eq!(ctx.phase, Phase::WaitInit);
}

#[test]
fn wake_without_socket_terminates() {
    let mut ctx = RpcContext::new();
    ctx.wake();
    let acts = ctx.on_event(Event::Woken, false);
    assert!(acts.is_empty());
    assert_eq!(ctx.phase, Phase::Terminated);
}

#[test]
fn shutdown_at_wake_terminates_before_reading() {
    let mut ctx = RpcContext::new();
    assert!(ctx.init(Opening::FirstFrame(text(r#"{"major":0,"minor":0}"#))).is_ok());
    let acts = ctx.on_event(Event::Woken, true);
    assert!(acts.is_empty());
    assert_eq!(ctx.phase, Phase::Terminated);
}

#[test]
fn send_frames_get_resources() {
    let ctx = RpcContext::new();
    let cmd = Command { kind: CommandKind::GetResources, serial: 42, ids: vec!["r1".to_string()] };
    let j = written_json(&ctx.send(&cmd));
    assert_eq!(j["type"], "GET_RESOURCES");
    assert_eq!(j["serial"], 42);
    assert_eq!(j["ids"], serde_json::Value::from(vec!["r1"]));
}

#[test]
fn encoding_outcome_maps_to_action() {
    let a = RpcContext::outcome_of_encoding(Ok("x".to_string()));
    assert!(matches!(&a, Action::Write(Frame::Text(t)) if t == "x"));
    let a = RpcContext::outcome_of_encoding(Err("bad".to_string()));
    assert!(matches!(&a, Action::GlobalError(m) if m == "bad"));
}

#[test]
fn login_url_appends_password() {
    let u = login_url("ws://localhost:8412/", "hunter2").unwrap();
    assert_eq!(u, "ws://localhost:8412/?password=hunter2");
    let u = login_url("ws://localhost:8412/?a=b", "p w").unwrap();
    assert_eq!(u, "ws://localhost:8412/?a=b&password=p+w");
    assert!(login_url("not a url", "x").is_none());
}
