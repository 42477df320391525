use discors::codec::{decode_message, parse_json, WsMessage};
use discors::error::Error;
use discors::event::{Event, OpCode, ReceiveEventData, SendEventData};
use discors::intents::GatewayIntents;
use discors::json::JsonValue;
use discors::shard::{
    ConnectionStage, ReconnectionKind, Shard, ShardAction, ShardInformation,
};

fn fresh_shard() -> Shard {
    Shard::new(
        "wss://gateway.example/?v=10&encoding=json",
        "tok-123",
        ShardInformation { id: 0, total: 1 },
        GatewayIntents::non_privileged(),
    )
}

fn decode_text(s: &str) -> Result<Option<Event>, Error> {
    decode_message(WsMessage::Text(s.to_string()))
}

fn event_of(s: &str) -> Event {
    decode_text(s).unwrap().unwrap()
}

#[test]
fn hello_in_handshake_identifies() {
    let mut shard = fresh_shard();
    assert_eq!(shard.connection_stage, ConnectionStage::Handshake);
    let ev = event_of(r#"{"op":10,"d":{"heartbeat_interval":41250},"s":null,"t":null}"#);
    let action = shard.handle_event(Ok(&ev), 1_000).unwrap();
    assert_eq!(action, Some(ShardAction::Identify));
    assert_eq!(shard.heartbeat_interval, Some(41_250));
    assert_eq!(shard.connection_stage, ConnectionStage::Identifying);
}

#[test]
fn hello_after_handshake_reconnects() {
    let mut shard = fresh_shard();
    shard.connection_stage = ConnectionStage::Connected;
    let ev = event_of(r#"{"op":10,"d":{"heartbeat_interval":100}}"#);
    // No resume address captured: the reconnect must identify.
    let action = shard.handle_event(Ok(&ev), 0).unwrap();
    assert_eq!(
        action,
        Some(ShardAction::Reconnect(ReconnectionKind::Identify))
    );
    assert_eq!(shard.heartbeat_interval, Some(100));

    let mut shard = fresh_shard();
    shard.connection_stage = ConnectionStage::Connected;
    shard.resume_url = Some("wss://resume.example".to_string());
    let ev = event_of(r#"{"op":10,"d":{"heartbeat_interval":100}}"#);
    let action = shard.handle_event(Ok(&ev), 0).unwrap();
    assert_eq!(action, Some(ShardAction::Reconnect(ReconnectionKind::Resume)));
}

#[test]
fn invalid_session_reconnects() {
    let mut shard = fresh_shard();
    let ev = event_of(r#"{"op":9,"d":false}"#);
    let action = shard.handle_event(Ok(&ev), 0).unwrap();
    assert_eq!(
        action,
        Some(ShardAction::Reconnect(ReconnectionKind::Identify))
    );
    let ev = event_of(r#"{"op":9,"d":true}"#);
    let action = shard.handle_event(Ok(&ev), 0).unwrap();
    assert_eq!(action, Some(ShardAction::Reconnect(ReconnectionKind::Resume)));
}

#[test]
fn heartbeat_request_in_handshake_identifies() {
    let mut shard = fresh_shard();
    let ev = event_of(r#"{"op":1}"#);
    let action = shard.handle_event(Ok(&ev), 0).unwrap();
    assert_eq!(action, Some(ShardAction::Identify));
    assert_eq!(shard.connection_stage, ConnectionStage::Identifying);
}

#[test]
fn heartbeat_request_elsewhere_heartbeats() {
    let mut shard = fresh_shard();
    shard.connection_stage = ConnectionStage::Connected;
    let ev = event_of(r#"{"op":1}"#);
    let action = shard.handle_event(Ok(&ev), 0).unwrap();
    assert_eq!(action, Some(ShardAction::Heartbeat));
    assert_eq!(shard.connection_stage, ConnectionStage::Connected);
}

#[test]
fn reconnect_event_resumes() {
    let mut shard = fresh_shard();
    let ev = event_of(r#"{"op":7}"#);
    let action = shard.handle_event(Ok(&ev), 0).unwrap();
    assert_eq!(action, Some(ShardAction::Reconnect(ReconnectionKind::Resume)));
}

#[test]
fn heartbeat_ack_clears_pending() {
    let mut shard = fresh_shard();
    shard.last_heartbeat_received = false;
    let ev = event_of(r#"{"op":11}"#);
    let action = shard.handle_event(Ok(&ev), 0).unwrap();
    assert_eq!(action, None);
    assert!(shard.last_heartbeat_received);
}

#[test]
fn decode_failure_passes_through() {
    let mut shard = fresh_shard();
    let r = shard.handle_event(Err(Error::Decode), 0);
    assert_eq!(r, Err(Error::Decode));
}

#[test]
fn reset_for_identify_clears_session() {
    let mut shard = fresh_shard();
    shard.session_id = Some("abc".to_string());
    shard.resume_url = Some("wss://x".to_string());
    shard.sequence = 42;
    shard.heartbeat_interval = Some(100);
    shard.reset(false, 5_000);
    assert_eq!(shard.session_id, None);
    assert_eq!(shard.resume_url, None);
    assert_eq!(shard.sequence, 0);
    assert_eq!(shard.heartbeat_interval, None);
    assert_eq!(shard.connection_stage, ConnectionStage::Disconnected);
    assert_eq!(shard.last_heartbeat_sent, Some(5_000));
    assert!(shard.last_heartbeat_received);
}

#[test]
fn reset_for_resume_keeps_session() {
    let mut shard = fresh_shard();
    shard.session_id = Some("abc".to_string());
    shard.resume_url = Some("wss://x".to_string());
    shard.sequence = 42;
    shard.reset(true, 5_000);
    assert_eq!(shard.session_id.as_deref(), Some("abc"));
    assert_eq!(shard.resume_url.as_deref(), Some("wss://x"));
    assert_eq!(shard.sequence, 0);
    assert_eq!(shard.connection_stage, ConnectionStage::Disconnected);
}

#[test]
fn resume_without_session_fails() {
    let mut shard = fresh_shard();
    let r = shard.resume();
    assert!(matches!(r, Err(Error::NoSessionToResume)));
    assert_eq!(shard.connection_stage, ConnectionStage::Resuming);
}

fn ready_text() -> &'static str {
    r#"{"op":0,"t":"READY","s":1,"d":{"v":10,"user":{"id":"42","username":"bot","discriminator":"0000"},"guilds":[{"id":"9","unavailable":true}],"session_id":"abc","resume_gateway_url":"wss://x"}}"#
}

#[test]
fn ready_captures_session() {
    let mut shard = fresh_shard();
    let ev = event_of(ready_text());
    let action = shard.handle_event(Ok(&ev), 0).unwrap();
    assert_eq!(action, None);
    assert_eq!(shard.session_id.as_deref(), Some("abc"));
    assert_eq!(shard.resume_url.as_deref(), Some("wss://x"));
    assert_eq!(shard.connection_stage, ConnectionStage::Connected);
    assert_eq!(shard.sequence, 1);
    assert!(shard.last_heartbeat_received);
}

#[test]
fn ready_then_resume_uses_captured_target() {
    let mut shard = fresh_shard();
    shard.sequence = 0;
    let ev = event_of(ready_text());
    shard.handle_event(Ok(&ev), 0).unwrap();
    let plan = shard.resume().unwrap();
    assert_eq!(plan.url, "wss://x");
    assert_eq!(shard.connection_stage, ConnectionStage::Resuming);
    assert_eq!(plan.frame.op, OpCode::Resume);
    match plan.frame.send_data.as_ref().unwrap() {
        SendEventData::Resume {
            token,
            session_id,
            sequence,
        } => {
            assert_eq!(token, "tok-123");
            assert_eq!(session_id, "abc");
            assert_eq!(*sequence, 1);
        }
        other => panic!("not a resume payload: {other:?}"),
    }
    // The frame's wire text carries exactly that payload under "d".
    let text = discors::codec::encode_event(&plan.frame);
    let w = parse_json(&text).unwrap();
    assert_eq!(w.get("op"), Some(&JsonValue::UInt(6)));
    let d = w.get("d").unwrap();
    assert_eq!(d.get("token"), Some(&JsonValue::Text("tok-123".to_string())));
    assert_eq!(d.get("session_id"), Some(&JsonValue::Text("abc".to_string())));
    assert_eq!(d.get("seq"), Some(&JsonValue::UInt(1)));
}

#[test]
fn resumed_marks_connected() {
    let mut shard = fresh_shard();
    shard.connection_stage = ConnectionStage::Resuming;
    shard.last_heartbeat_received = false;
    let ev = event_of(r#"{"op":0,"t":"RESUMED","d":null}"#);
    let action = shard.handle_event(Ok(&ev), 777).unwrap();
    assert_eq!(action, None);
    assert_eq!(shard.connection_stage, ConnectionStage::Connected);
    assert!(shard.last_heartbeat_received);
    assert_eq!(shard.last_heartbeat_sent, Some(777));
}

#[test]
fn sequence_tracks_maximum() {
    let mut shard = fresh_shard();
    let ev = event_of(r#"{"op":0,"t":"GUILD_CREATE","s":5,"d":{}}"#);
    shard.handle_event(Ok(&ev), 0).unwrap();
    assert_eq!(shard.sequence, 5);
    let ev = event_of(r#"{"op":0,"t":"GUILD_UPDATE","d":{}}"#);
    shard.handle_event(Ok(&ev), 0).unwrap();
    assert_eq!(shard.sequence, 5);
    let ev = event_of(r#"{"op":0,"t":"GUILD_DELETE","s":7,"d":{}}"#);
    shard.handle_event(Ok(&ev), 0).unwrap();
    assert_eq!(shard.sequence, 7);
    let ev = event_of(r#"{"op":0,"t":"GUILD_CREATE","s":3,"d":{}}"#);
    shard.handle_event(Ok(&ev), 0).unwrap();
    assert_eq!(shard.sequence, 7);
}

#[test]
fn heartbeat_check_sends_at_most_once_per_interval() {
    let mut shard = fresh_shard();
    let ev = event_of(r#"{"op":10,"d":{"heartbeat_interval":1000}}"#);
    shard.handle_event(Ok(&ev), 0).unwrap();
    let ev = event_of(r#"{"op":11}"#);
    shard.handle_event(Ok(&ev), 0).unwrap();
    // No heartbeat was ever sent: the first check sends one.
    let (ok, frame) = shard.do_heartbeat_interval(10_000);
    assert!(ok);
    let frame = frame.expect("first check must send");
    assert_eq!(frame.op, OpCode::Heartbeat);
    assert_eq!(
        frame.send_data,
        Some(SendEventData::Heartbeat(Some(0)))
    );
    // Every further check inside the same interval sends nothing.
    let (ok, frame) = shard.do_heartbeat_interval(10_400);
    assert!(ok);
    assert!(frame.is_none());
    let (ok, frame) = shard.do_heartbeat_interval(11_000);
    assert!(ok);
    assert!(frame.is_none());
}

#[test]
fn heartbeat_check_without_interval_is_satisfied() {
    let mut shard = fresh_shard();
    let (ok, frame) = shard.do_heartbeat_interval(123);
    assert!(ok);
    assert!(frame.is_none());
}

#[test]
fn missed_ack_reports_failure() {
    let mut shard = fresh_shard();
    shard.heartbeat_interval = Some(1000);
    shard.last_heartbeat_sent = Some(0);
    shard.last_heartbeat_received = false;
    let (ok, frame) = shard.do_heartbeat_interval(2_000);
    assert!(!ok);
    assert!(frame.is_none());
}

#[test]
fn identify_moves_stage_and_quotes_configuration() {
    let mut shard = fresh_shard();
    let frame = shard.identify(50);
    assert_eq!(shard.connection_stage, ConnectionStage::Identifying);
    assert_eq!(shard.last_heartbeat_sent, Some(50));
    assert_eq!(frame.op, OpCode::Identify);
    match frame.send_data.unwrap() {
        SendEventData::Identify {
            token,
            compress,
            large_threshold,
            shard: pair,
            intents,
            ..
        } => {
            assert_eq!(token, "tok-123");
            assert_eq!(compress, None);
            assert_eq!(large_threshold, None);
            assert_eq!(pair, Some(ShardInformation { id: 0, total: 1 }));
            assert_eq!(intents, GatewayIntents::non_privileged());
        }
        other => panic!("not an identify payload: {other:?}"),
    }
}

#[test]
fn apply_reconnect_identify_resets_then_identifies() {
    let mut shard = fresh_shard();
    shard.session_id = Some("abc".to_string());
    shard.resume_url = Some("wss://x".to_string());
    shard.sequence = 9;
    let plan = shard
        .apply_action(ShardAction::Reconnect(ReconnectionKind::Identify), 10)
        .unwrap();
    assert_eq!(plan.connect_to, None);
    assert_eq!(plan.frame.op, OpCode::Identify);
    assert_eq!(shard.session_id, None);
    assert_eq!(shard.sequence, 0);
    assert_eq!(shard.connection_stage, ConnectionStage::Identifying);
}

#[test]
fn apply_reconnect_resume_keeps_session_and_connects() {
    let mut shard = fresh_shard();
    shard.session_id = Some("abc".to_string());
    shard.resume_url = Some("wss://x".to_string());
    shard.sequence = 9;
    let plan = shard
        .apply_action(ShardAction::Reconnect(ReconnectionKind::Resume), 10)
        .unwrap();
    assert_eq!(plan.connect_to.as_deref(), Some("wss://x"));
    assert_eq!(plan.frame.op, OpCode::Resume);
    assert_eq!(shard.connection_stage, ConnectionStage::Resuming);
    // The reset zeroes the sequence before the resume frame is built.
    match plan.frame.send_data.unwrap() {
        SendEventData::Resume { sequence, .. } => assert_eq!(sequence, 0),
        other => panic!("not a resume payload: {other:?}"),
    }
}

#[test]
fn receive_events_ignore_send_only_opcodes() {
    let mut shard = fresh_shard();
    let ev = event_of(r#"{"op":2,"d":{"anything":1}}"#);
    assert_eq!(ev.receive_data, None);
    let action = shard.handle_event(Ok(&ev), 0).unwrap();
    assert_eq!(action, None);
}
