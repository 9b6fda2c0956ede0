use discline::errors::GatewayError;
use discline::gateway::{
    heartbeat_json, parse_payload, Event, FrameAction, Gateway, IdentifyPayload, WireMessage,
};

fn fresh_gateway() -> Gateway {
    Gateway {
        heartbeat_interval: 50,
        last_sequence: None,
        token: "test-token".to_string(),
        session_id: None,
    }
}

fn payload_of(text: &str) -> discline::gateway::GatewayPayload {
    match parse_payload(text) {
        Ok(p) => p,
        Err(e) => panic!("frame should parse: {:?}", e),
    }
}

#[test]
fn test_gateway_connect_and_ready() {
    let hello = payload_of("{\"op\":10,\"d\":{\"heartbeat_interval\":50}}");
    let (mut gateway, identify) =
        Gateway::accept_hello("test-token".to_string(), "linux".to_string(), hello)
            .expect("Failed to connect");
    assert_eq!(gateway.heartbeat_interval(), 50);

    let identify_value: serde_json::Value = serde_json::from_str(&identify).unwrap();
    assert_eq!(identify_value.get("op").and_then(|v| v.as_u64()), Some(2));
    let d = identify_value.get("d").unwrap();
    assert_eq!(d.get("token").and_then(|v| v.as_str()), Some("test-token"));
    assert_eq!(d.get("intents").and_then(|v| v.as_u64()), Some(32767));

    let ready_text = "{\"op\":0,\"t\":\"READY\",\"s\":1,\"d\":{\"user\":{\"id\":1,\
         \"username\":\"testuser\",\"discriminator\":\"0000\",\"email\":\"test@test.com\"},\
         \"guilds\":[],\"session_id\":\"test-session\"}}";
    let action = gateway
        .handle_message(WireMessage::Text(ready_text.to_string()))
        .expect("Failed to get READY event");
    match action {
        FrameAction::Deliver(Event::Ready { user, session_id, .. }) => {
            assert_eq!(user.username, "testuser");
            assert_eq!(session_id, "test-session");
        }
        other => panic!("Expected READY event, got {:?}", other),
    }
    assert_eq!(gateway.session_id.as_deref(), Some("test-session"));
    assert_eq!(gateway.last_sequence, Some(1));
}

#[test]
fn test_hello_wrong_opcode_is_protocol_error() {
    let not_hello = payload_of("{\"op\":11,\"d\":null}");
    let result = Gateway::accept_hello("test-token".to_string(), "linux".to_string(), not_hello);
    match result {
        Err(GatewayError::ProtocolError(m)) => {
            assert_eq!(m, "Expected HELLO (10), got 11");
        }
        other => panic!("Expected protocol error, got {:?}", other),
    }
}

#[test]
fn test_hello_malformed_payload_is_json_error() {
    let hello = payload_of("{\"op\":10,\"d\":{}}");
    let result = Gateway::accept_hello("test-token".to_string(), "linux".to_string(), hello);
    assert!(matches!(result, Err(GatewayError::Json(_))));
}

#[test]
fn test_identify_token_is_escaped() {
    let hello = payload_of("{\"op\":10,\"d\":{\"heartbeat_interval\":100}}");
    let token = "to\"ken\\with\nnoise".to_string();
    let (_, identify) =
        Gateway::accept_hello(token.clone(), "linux".to_string(), hello).unwrap();
    let identify_value: serde_json::Value = serde_json::from_str(&identify).unwrap();
    let sent = identify_value
        .get("d")
        .and_then(|d| d.get("token"))
        .and_then(|v| v.as_str())
        .unwrap();
    assert_eq!(sent, token);
}

#[test]
fn test_sequence_feeds_next_heartbeat() {
    let mut gateway = fresh_gateway();
    assert_eq!(gateway.next_heartbeat(), "{\"op\":1,\"d\":null}");

    let action = gateway
        .handle_message(WireMessage::Text(
            "{\"op\":0,\"t\":\"SOMETHING_ELSE\",\"s\":42,\"d\":null}".to_string(),
        ))
        .unwrap();
    assert!(matches!(action, FrameAction::Continue));
    assert_eq!(gateway.last_sequence, Some(42));
    assert_eq!(gateway.next_heartbeat(), "{\"op\":1,\"d\":42}");
}

#[test]
fn test_heartbeat_request_is_answered_with_sequence() {
    let mut gateway = fresh_gateway();
    gateway.last_sequence = Some(7);
    let action = gateway
        .handle_message(WireMessage::Text("{\"op\":1,\"s\":8,\"d\":null}".to_string()))
        .unwrap();
    match action {
        FrameAction::Send(frame) => assert_eq!(frame, "{\"op\":1,\"d\":8}"),
        other => panic!("Expected heartbeat reply, got {:?}", other),
    }
}

#[test]
fn test_heartbeat_json_values() {
    assert_eq!(heartbeat_json(None), "{\"op\":1,\"d\":null}");
    assert_eq!(heartbeat_json(Some(0)), "{\"op\":1,\"d\":0}");
    assert_eq!(heartbeat_json(Some(18446744073709551615)), "{\"op\":1,\"d\":18446744073709551615}");
}

#[test]
fn test_reconnect_required_is_fatal() {
    let mut gateway = fresh_gateway();
    let result = gateway.handle_message(WireMessage::Text("{\"op\":7,\"d\":null}".to_string()));
    assert!(matches!(result, Err(GatewayError::ReconnectRequired)));
}

#[test]
fn test_invalid_session_is_fatal() {
    let mut gateway = fresh_gateway();
    let result = gateway.handle_message(WireMessage::Text("{\"op\":9,\"d\":false}".to_string()));
    assert!(matches!(result, Err(GatewayError::AuthenticationFailed)));
}

#[test]
fn test_close_frame_is_unexpected_close() {
    let mut gateway = fresh_gateway();
    let result = gateway.handle_message(WireMessage::Close);
    assert!(matches!(result, Err(GatewayError::UnexpectedClose)));
}

#[test]
fn test_non_text_frames_are_skipped() {
    let mut gateway = fresh_gateway();
    let action = gateway.handle_message(WireMessage::Other).unwrap();
    assert!(matches!(action, FrameAction::Continue));
}

#[test]
fn test_heartbeat_ack_is_skipped() {
    let mut gateway = fresh_gateway();
    let action = gateway
        .handle_message(WireMessage::Text("{\"op\":11,\"d\":null}".to_string()))
        .unwrap();
    assert!(matches!(action, FrameAction::Continue));
}

#[test]
fn test_unknown_opcode_is_skipped() {
    let mut gateway = fresh_gateway();
    let action = gateway
        .handle_message(WireMessage::Text("{\"op\":42,\"d\":null}".to_string()))
        .unwrap();
    assert!(matches!(action, FrameAction::Continue));
}

#[test]
fn test_message_create_is_delivered() {
    let mut gateway = fresh_gateway();
    let text = "{\"op\":0,\"t\":\"MESSAGE_CREATE\",\"s\":3,\"d\":{\"id\":9,\
        \"author\":{\"id\":1,\"username\":\"testuser\",\"discriminator\":\"0\",\
        \"email\":\"test@test.com\"},\"content\":\"hi\",\"channel_id\":4,\
        \"timestamp\":\"2026-02-17T12:00:00Z\"}}";
    let action = gateway.handle_message(WireMessage::Text(text.to_string())).unwrap();
    match action {
        FrameAction::Deliver(Event::MessageCreate(m)) => {
            assert_eq!(m.content, "hi");
            assert_eq!(m.channel_id.0, 4);
            assert_eq!(m.author.username, "testuser");
            assert_eq!(m.timestamp, "2026-02-17T12:00:00Z");
        }
        other => panic!("Expected MESSAGE_CREATE, got {:?}", other),
    }
    assert_eq!(gateway.last_sequence, Some(3));
}

#[test]
fn test_invalid_frame_text_is_json_error() {
    let mut gateway = fresh_gateway();
    let result = gateway.handle_message(WireMessage::Text("not json".to_string()));
    assert!(matches!(result, Err(GatewayError::Json(_))));
}

#[test]
fn test_frame_without_opcode_is_json_error() {
    let mut gateway = fresh_gateway();
    let result = gateway.handle_message(WireMessage::Text("{\"d\":null}".to_string()));
    assert!(matches!(result, Err(GatewayError::Json(_))));
}

#[test]
fn test_identify_payload_shape() {
    let identify = IdentifyPayload::new("tok".to_string(), "linux".to_string());
    assert_eq!(identify.op, 2);
    assert_eq!(identify.d.properties.browser, "discline");
    assert_eq!(identify.d.properties.device, "discline");
    assert_eq!(identify.d.properties.os, "linux");
    assert_eq!(identify.d.intents, 32767);
    assert_eq!(
        identify.to_json(),
        "{\"op\":2,\"d\":{\"token\":\"tok\",\"properties\":{\"os\":\"linux\",\
         \"browser\":\"discline\",\"device\":\"discline\"},\"intents\":32767}}"
    );
}
