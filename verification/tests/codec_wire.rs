use std::io::Write;

use discors::codec::{decode_message, encode_event, json_to_text, parse_json, WsMessage};
use discors::error::{CloseFrame, Error};
use discors::event::{
    Event, IdentifyProperties, OpCode, ReceiveEventData, SendEventData,
};
use discors::intents::GatewayIntents;
use discors::json::JsonValue;
use discors::shard::ShardInformation;
use discors::user::PremiumType;

fn decode_text(s: &str) -> Result<Option<Event>, Error> {
    decode_message(WsMessage::Text(s.to_string()))
}

#[test]
fn close_code_surfaces_as_failure() {
    let frame = CloseFrame {
        code: 4004,
        reason: "Authentication failed.".to_string(),
    };
    let r = decode_message(WsMessage::Close(Some(frame.clone())));
    assert_eq!(r, Err(Error::Closed(Some(frame))));
}

#[test]
fn close_without_frame_surfaces_as_failure() {
    let r = decode_message(WsMessage::Close(None));
    assert_eq!(r, Err(Error::Closed(None)));
}

#[test]
fn other_frames_carry_no_event() {
    let r = decode_message(WsMessage::Other);
    assert_eq!(r, Ok(None));
}

#[test]
fn malformed_json_is_a_decode_failure() {
    assert_eq!(decode_text("{"), Err(Error::Decode));
    assert_eq!(decode_text(""), Err(Error::Decode));
}

#[test]
fn binary_frame_inflates_and_decodes() {
    let text = r#"{"op":11}"#;
    let mut enc = flate2::write::ZlibEncoder::new(Vec::new(), flate2::Compression::default());
    enc.write_all(text.as_bytes()).unwrap();
    let bytes = enc.finish().unwrap();
    let ev = decode_message(WsMessage::Binary(bytes)).unwrap().unwrap();
    assert_eq!(ev.op, OpCode::HeartbeatACK);
    assert_eq!(ev.receive_data, Some(ReceiveEventData::HeartbeatAck));
}

#[test]
fn corrupt_binary_frame_is_a_compression_failure() {
    let r = decode_message(WsMessage::Binary(vec![0x01, 0x02, 0x03]));
    assert_eq!(r, Err(Error::Compression));
}

#[test]
fn missing_or_bad_opcode_is_rejected() {
    assert_eq!(decode_text(r#"{"d":null}"#), Err(Error::Decode));
    assert_eq!(decode_text(r#"{"op":"ten"}"#), Err(Error::Decode));
    assert_eq!(decode_text(r#"{"op":1.5}"#), Err(Error::Decode));
    assert_eq!(decode_text(r#"{"op":-1}"#), Err(Error::Decode));
    // Defined numbers in the protocol stop at 31; 5 and 12 name nothing.
    assert_eq!(decode_text(r#"{"op":5}"#), Err(Error::Decode));
    assert_eq!(decode_text(r#"{"op":12}"#), Err(Error::Decode));
}

#[test]
fn invalid_session_payload_must_be_a_boolean() {
    assert_eq!(decode_text(r#"{"op":9}"#), Err(Error::Decode));
    assert_eq!(decode_text(r#"{"op":9,"d":null}"#), Err(Error::Decode));
    assert_eq!(decode_text(r#"{"op":9,"d":1}"#), Err(Error::Decode));
}

#[test]
fn hello_payload_must_carry_the_interval() {
    assert_eq!(decode_text(r#"{"op":10}"#), Err(Error::Decode));
    assert_eq!(decode_text(r#"{"op":10,"d":{}}"#), Err(Error::Decode));
    assert_eq!(
        decode_text(r#"{"op":10,"d":{"heartbeat_interval":"x"}}"#),
        Err(Error::Decode)
    );
}

#[test]
fn unknown_dispatch_name_is_rejected() {
    assert_eq!(
        decode_text(r#"{"op":0,"t":"TYPING_START","d":{}}"#),
        Err(Error::Decode)
    );
    assert_eq!(decode_text(r#"{"op":0,"d":{}}"#), Err(Error::Decode));
}

#[test]
fn lenient_bookkeeping_fields() {
    let ev = decode_text(r#"{"op":1,"s":"abc","t":17}"#).unwrap().unwrap();
    assert_eq!(ev.sequence, None);
    assert_eq!(ev.event, None);
    let ev = decode_text(r#"{"op":1,"s":12,"t":"X"}"#).unwrap().unwrap();
    assert_eq!(ev.sequence, Some(12));
    assert_eq!(ev.event.as_deref(), Some("X"));
}

#[test]
fn ready_decodes_the_whole_snapshot() {
    let text = r#"{"op":0,"t":"READY","s":2,"d":{
        "v":10,
        "user":{"id":"42","username":"bot","discriminator":"0000",
                "global_name":null,"bot":true,"accent_color":16711680,
                "flags":4194369,"premium_type":2,"public_flags":64,
                "avatar_decoration_data":{"asset":"h","sku_id":7}},
        "guilds":[{"id":"1","unavailable":true},{"id":"2","unavailable":true}],
        "session_id":"sess","resume_gateway_url":"wss://r","shard":[2,4],
        "application":{"id":"ignored"}}}"#;
    let ev = decode_text(text).unwrap().unwrap();
    assert_eq!(ev.op, OpCode::Dispatch);
    assert_eq!(ev.sequence, Some(2));
    assert_eq!(ev.event.as_deref(), Some("READY"));
    let ready = match ev.receive_data.unwrap() {
        ReceiveEventData::Dispatch(discors::dispatch::DispatchEvent::Ready(r)) => r,
        other => panic!("not a ready dispatch: {other:?}"),
    };
    assert_eq!(ready.v, 10);
    assert_eq!(ready.session_id, "sess");
    assert_eq!(ready.resume_gateway_url, "wss://r");
    assert_eq!(ready.shard, Some((2, 4)));
    assert_eq!(ready.guilds.len(), 2);
    assert_eq!(ready.guilds[0].id, "1");
    assert!(ready.guilds[1].unavailable);
    let user = ready.user;
    assert_eq!(user.id, "42");
    assert_eq!(user.username, "bot");
    assert_eq!(user.global_name, None);
    assert_eq!(user.bot, Some(true));
    assert_eq!(user.accent_color, Some(16_711_680));
    // 4194369 = STAFF | VERIFIED_DEVELOPER | ACTIVE_DEVELOPER; all defined.
    assert_eq!(user.flags.unwrap().bits(), 4_194_369);
    assert_eq!(user.premium_type, Some(PremiumType::Nitro));
    assert_eq!(user.public_flags.unwrap().bits(), 64);
    let deco = user.avatar_decoration_data.unwrap();
    assert_eq!(deco.asset, "h");
    assert_eq!(deco.sku_id, 7);
}

#[test]
fn ready_requires_its_fields() {
    assert_eq!(
        decode_text(r#"{"op":0,"t":"READY","d":{"v":10}}"#),
        Err(Error::Decode)
    );
    // A shard pair must be exactly two unsigned integers.
    let text = r#"{"op":0,"t":"READY","d":{"v":10,
        "user":{"id":"1","username":"u","discriminator":"0"},
        "guilds":[],"session_id":"s","resume_gateway_url":"wss://r",
        "shard":[1]}}"#;
    assert_eq!(decode_text(text), Err(Error::Decode));
}

#[test]
fn unknown_user_flag_bits_are_dropped() {
    let text = r#"{"op":0,"t":"READY","d":{"v":1,
        "user":{"id":"1","username":"u","discriminator":"0","flags":18446744073709551615},
        "guilds":[],"session_id":"s","resume_gateway_url":"wss://r"}}"#;
    let ev = decode_text(text).unwrap().unwrap();
    let ready = match ev.receive_data.unwrap() {
        ReceiveEventData::Dispatch(discors::dispatch::DispatchEvent::Ready(r)) => r,
        other => panic!("not a ready dispatch: {other:?}"),
    };
    assert_eq!(
        ready.user.flags.unwrap().bits(),
        discors::user::ALL_USER_FLAGS
    );
}

#[test]
fn undefined_premium_tier_is_rejected() {
    let text = r#"{"op":0,"t":"READY","d":{"v":1,
        "user":{"id":"1","username":"u","discriminator":"0","premium_type":4},
        "guilds":[],"session_id":"s","resume_gateway_url":"wss://r"}}"#;
    assert_eq!(decode_text(text), Err(Error::Decode));
    assert_eq!(PremiumType::from_u64(0), Some(PremiumType::NotSubscribed));
    assert_eq!(PremiumType::from_u64(3), Some(PremiumType::NitroBasic));
    assert_eq!(PremiumType::from_u64(4), None);
}

#[test]
fn resumed_accepts_null_or_absent_payload() {
    let ev = decode_text(r#"{"op":0,"t":"RESUMED","d":null}"#).unwrap().unwrap();
    assert!(matches!(
        ev.receive_data,
        Some(ReceiveEventData::Dispatch(
            discors::dispatch::DispatchEvent::Resumed
        ))
    ));
    let ev = decode_text(r#"{"op":0,"t":"RESUMED"}"#).unwrap().unwrap();
    assert!(matches!(
        ev.receive_data,
        Some(ReceiveEventData::Dispatch(
            discors::dispatch::DispatchEvent::Resumed
        ))
    ));
    assert_eq!(
        decode_text(r#"{"op":0,"t":"RESUMED","d":{}}"#),
        Err(Error::Decode)
    );
}

#[test]
fn standalone_shard_pair_encodes_as_an_array() {
    let pair = ShardInformation { id: 5, total: 8 };
    let text = json_to_text(&pair.to_json());
    assert_eq!(text, "[5,8]");
}

#[test]
fn identify_round_trip_keeps_the_shard_array() {
    let frame = Event {
        op: OpCode::Identify,
        receive_data: None,
        send_data: Some(SendEventData::Identify {
            token: "tok".to_string(),
            properties: IdentifyProperties::new("linux", "discors", "discors"),
            compress: None,
            large_threshold: None,
            shard: Some(ShardInformation { id: 2, total: 4 }),
            intents: GatewayIntents::non_privileged(),
        }),
        sequence: None,
        event: None,
    };
    let text = encode_event(&frame);
    let w = parse_json(&text).unwrap();
    assert_eq!(w.get("op"), Some(&JsonValue::UInt(2)));
    assert_eq!(w.get("s"), None);
    assert_eq!(w.get("t"), None);
    let d = w.get("d").unwrap();
    assert_eq!(
        d.get("shard"),
        Some(&JsonValue::Array(vec![
            JsonValue::UInt(2),
            JsonValue::UInt(4)
        ]))
    );
    // Unset optional fields are omitted entirely, never written as null.
    assert_eq!(d.get("compress"), None);
    assert_eq!(d.get("large_threshold"), None);
    assert_eq!(d.get("token"), Some(&JsonValue::Text("tok".to_string())));
    assert_eq!(
        d.get("intents"),
        Some(&JsonValue::UInt(
            GatewayIntents::non_privileged().bits() as u64
        ))
    );
    let props = d.get("properties").unwrap();
    assert_eq!(props.get("os"), Some(&JsonValue::Text("linux".to_string())));
    assert_eq!(
        props.get("browser"),
        Some(&JsonValue::Text("discors".to_string()))
    );
    assert_eq!(
        props.get("device"),
        Some(&JsonValue::Text("discors".to_string()))
    );
}

#[test]
fn optional_identify_fields_appear_when_set() {
    let frame = Event {
        op: OpCode::Identify,
        receive_data: None,
        send_data: Some(SendEventData::Identify {
            token: "tok".to_string(),
            properties: IdentifyProperties::default(),
            compress: Some(false),
            large_threshold: Some(250),
            shard: None,
            intents: GatewayIntents::empty(),
        }),
        sequence: None,
        event: None,
    };
    let text = encode_event(&frame);
    let w = parse_json(&text).unwrap();
    let d = w.get("d").unwrap();
    assert_eq!(d.get("compress"), Some(&JsonValue::Bool(false)));
    assert_eq!(d.get("large_threshold"), Some(&JsonValue::UInt(250)));
    assert_eq!(d.get("shard"), None);
}

#[test]
fn heartbeat_frames_encode_their_sequence() {
    let frame = Event {
        op: OpCode::Heartbeat,
        receive_data: None,
        send_data: Some(SendEventData::Heartbeat(Some(251))),
        sequence: None,
        event: None,
    };
    let w = parse_json(&encode_event(&frame)).unwrap();
    assert_eq!(w.get("op"), Some(&JsonValue::UInt(1)));
    assert_eq!(w.get("d"), Some(&JsonValue::UInt(251)));

    let frame = Event {
        op: OpCode::Heartbeat,
        receive_data: None,
        send_data: Some(SendEventData::Heartbeat(None)),
        sequence: None,
        event: None,
    };
    let w = parse_json(&encode_event(&frame)).unwrap();
    assert_eq!(w.get("d"), Some(&JsonValue::Null));
}

#[test]
fn opcode_numbers_round_trip() {
    let all = [
        (0, OpCode::Dispatch),
        (1, OpCode::Heartbeat),
        (2, OpCode::Identify),
        (3, OpCode::PresenceUpdate),
        (4, OpCode::VoiceStateUpdate),
        (6, OpCode::Resume),
        (7, OpCode::Reconnect),
        (8, OpCode::RequestGuildMembers),
        (9, OpCode::InvalidSession),
        (10, OpCode::Hello),
        (11, OpCode::HeartbeatACK),
        (31, OpCode::RequestSoundboardSounds),
    ];
    for (n, op) in all {
        assert_eq!(OpCode::from_u64(n), Some(op));
        assert_eq!(op.as_u8() as u64, n);
    }
    assert_eq!(OpCode::from_u64(5), None);
    assert_eq!(OpCode::from_u64(256), None);
}

#[test]
fn guild_lifecycle_dispatches_decode() {
    let ev = decode_text(r#"{"op":0,"t":"GUILD_CREATE","s":3,"d":{"id":"1"}}"#)
        .unwrap()
        .unwrap();
    assert!(matches!(
        ev.receive_data,
        Some(ReceiveEventData::Dispatch(
            discors::dispatch::DispatchEvent::GuildCreate(_)
        ))
    ));
    let ev = decode_text(r#"{"op":0,"t":"GUILD_UPDATE","d":{}}"#).unwrap().unwrap();
    assert!(matches!(
        ev.receive_data,
        Some(ReceiveEventData::Dispatch(
            discors::dispatch::DispatchEvent::GuildUpdate(_)
        ))
    ));
    let ev = decode_text(r#"{"op":0,"t":"GUILD_DELETE","d":{}}"#).unwrap().unwrap();
    assert!(matches!(
        ev.receive_data,
        Some(ReceiveEventData::Dispatch(
            discors::dispatch::DispatchEvent::GuildDelete(_)
        ))
    ));
    // The payload must still be an object.
    assert_eq!(
        decode_text(r#"{"op":0,"t":"GUILD_CREATE","d":7}"#),
        Err(Error::Decode)
    );
}

#[test]
fn send_only_opcodes_decode_with_empty_payload() {
    for text in [
        r#"{"op":3,"d":{}}"#,
        r#"{"op":4}"#,
        r#"{"op":6,"d":{"token":"t"}}"#,
        r#"{"op":8}"#,
        r#"{"op":31}"#,
    ] {
        let ev = decode_text(text).unwrap().unwrap();
        assert_eq!(ev.receive_data, None, "for {text}");
        assert_eq!(ev.send_data, None, "for {text}");
    }
}

#[test]
fn out_of_range_numeric_fields_are_rejected() {
    let text = r#"{"op":0,"t":"READY","d":{"v":70000,
        "user":{"id":"1","username":"u","discriminator":"0"},
        "guilds":[],"session_id":"s","resume_gateway_url":"wss://r"}}"#;
    assert_eq!(decode_text(text), Err(Error::Decode));
    let text = r#"{"op":0,"t":"READY","d":{"v":1,
        "user":{"id":"1","username":"u","discriminator":"0","accent_color":4294967296},
        "guilds":[],"session_id":"s","resume_gateway_url":"wss://r"}}"#;
    assert_eq!(decode_text(text), Err(Error::Decode));
}

#[test]
fn ready_shard_pair_may_be_absent_or_null() {
    let text = r#"{"op":0,"t":"READY","d":{"v":1,
        "user":{"id":"1","username":"u","discriminator":"0"},
        "guilds":[],"session_id":"s","resume_gateway_url":"wss://r","shard":null}}"#;
    let ev = decode_text(text).unwrap().unwrap();
    match ev.receive_data.unwrap() {
        ReceiveEventData::Dispatch(discors::dispatch::DispatchEvent::Ready(r)) => {
            assert_eq!(r.shard, None);
        }
        other => panic!("not a ready dispatch: {other:?}"),
    }
}
