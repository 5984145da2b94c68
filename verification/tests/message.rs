use routerify_websocket::{Message, WebsocketError};

#[test]
fn ping_of_125_bytes_is_constructed() {
    let m = Message::ping(vec![7u8; 125]).expect("a ping");
    assert!(m.is_ping());
    assert_eq!(m.len(), 125);
    assert_eq!(m.as_bytes(), &[7u8; 125][..]);
}

#[test]
fn ping_of_126_bytes_is_refused() {
    assert_eq!(Message::ping(vec![7u8; 126]), None);
    assert_eq!(Message::ping(vec![0u8; 1000]), None);
}

#[test]
fn pong_of_125_bytes_is_constructed() {
    let m = Message::pong(vec![9u8; 125]).expect("a pong");
    assert!(m.is_pong());
    assert_eq!(m.len(), 125);
}

#[test]
fn pong_of_126_bytes_is_refused() {
    assert_eq!(Message::pong(vec![9u8; 126]), None);
}

#[test]
fn empty_control_messages_are_constructed() {
    assert!(Message::ping(Vec::new()).expect("a ping").is_empty());
    assert!(Message::pong(Vec::new()).expect("a pong").is_empty());
}

#[test]
fn text_round_trip() {
    let m = Message::text("hey".into());
    assert_eq!(m.as_text(), Ok("hey"));
    assert_eq!(m.as_bytes(), b"hey");
    assert_eq!(m.len(), 3);
    assert_eq!(m.into_text(), Ok("hey".to_string()));
    let m = Message::text("grüße, 世界".into());
    assert_eq!(m.as_text(), Ok("grüße, 世界"));
    assert_eq!(m.len(), "grüße, 世界".len());
    let m = Message::text(Vec::new());
    assert_eq!(m.as_text(), Ok(""));
    assert!(m.is_empty());
}

#[test]
fn text_that_is_no_text_fails_to_decode_only_when_asked() {
    let m = Message::text(vec![b'o', b'k', 0x80]);
    assert!(m.is_text());
    assert_eq!(m.len(), 3);
    assert_eq!(m.as_bytes(), &[b'o', b'k', 0x80][..]);
    match m.as_text() {
        Err(WebsocketError::DecodeText(detail)) => {
            assert_eq!(detail, "invalid utf-8 sequence of 1 bytes from index 2")
        }
        other => panic!("unexpected: {:?}", other),
    }
    assert!(matches!(m.into_text(), Err(WebsocketError::DecodeText(_))));
}

#[test]
fn binary_round_trip() {
    let data = vec![0u8, 159, 146, 150, 255];
    let m = Message::binary(data.clone());
    assert_eq!(m.as_bytes(), &data[..]);
    assert_eq!(m.len(), 5);
    assert_eq!(m.clone().into_bytes(), data);
    assert_eq!(m.into_bytes(), vec![0u8, 159, 146, 150, 255]);
}

#[test]
fn binary_that_is_text_decodes() {
    let m = Message::binary(b"plain".to_vec());
    assert_eq!(m.as_text(), Ok("plain"));
    assert_eq!(m.into_text(), Ok("plain".to_string()));
}

#[test]
fn binary_that_is_no_text_fails_to_decode() {
    let m = Message::binary(vec![0xff, 0xfe]);
    match m.as_text() {
        Err(WebsocketError::DecodeText(detail)) => {
            assert_eq!(detail, "invalid utf-8 sequence of 1 bytes from index 0")
        }
        other => panic!("unexpected: {:?}", other),
    }
    assert!(matches!(m.into_text(), Err(WebsocketError::DecodeText(_))));
    let truncated = Message::ping(vec![b'a', 0xe4, 0xb8]).expect("a ping");
    assert!(matches!(truncated.as_text(), Err(WebsocketError::DecodeText(_))));
}

#[test]
fn kinds_are_told_apart() {
    let text = Message::text("a".into());
    let binary = Message::binary(vec![1]);
    let ping = Message::ping(vec![1]).expect("a ping");
    let pong = Message::pong(vec![1]).expect("a pong");
    let close = Message::close();
    assert!(text.is_text() && !text.is_binary() && !text.is_ping() && !text.is_pong() && !text.is_close());
    assert!(binary.is_binary() && !binary.is_text() && !binary.is_close());
    assert!(ping.is_ping() && !ping.is_pong() && !ping.is_binary());
    assert!(pong.is_pong() && !pong.is_ping());
    assert!(close.is_close() && !close.is_text());
    assert_ne!(ping, pong);
    assert_ne!(text, binary);
}

#[test]
fn bare_close_differs_from_close_with() {
    let bare = Message::close();
    let full = Message::close_with(1000, "bye".to_string());
    assert_ne!(bare, full);
    assert_eq!(bare.close_code(), None);
    assert_eq!(bare.close_reason(), None);
    assert_eq!(full.close_code(), Some(1000));
    assert_eq!(full.close_reason(), Some("bye"));
    let empty = Message::close_with(1000, String::new());
    assert_ne!(bare, empty);
    assert_eq!(empty.close_code(), Some(1000));
    assert_eq!(empty.close_reason(), Some(""));
}

#[test]
fn close_content_is_its_reason() {
    let bare = Message::close();
    assert_eq!(bare.len(), 0);
    assert!(bare.is_empty());
    assert_eq!(bare.as_text(), Ok(""));
    assert_eq!(bare.as_bytes(), b"");
    assert_eq!(bare.into_bytes(), Vec::<u8>::new());
    let full = Message::close_with(1001, "going away".to_string());
    assert_eq!(full.len(), 10);
    assert!(!full.is_empty());
    assert_eq!(full.as_text(), Ok("going away"));
    assert_eq!(full.as_bytes(), b"");
    assert_eq!(full.clone().into_text(), Ok("going away".to_string()));
    assert_eq!(full.into_bytes(), b"going away".to_vec());
}

#[test]
fn codes_are_absent_from_other_messages() {
    assert_eq!(Message::text("1000".into()).close_code(), None);
    assert_eq!(Message::binary(vec![3, 232]).close_reason(), None);
}

#[test]
fn clone_is_equal() {
    let m = Message::close_with(4000, "custom".to_string());
    assert_eq!(m.clone(), m);
    let p = Message::ping(vec![1, 2, 3]).expect("a ping");
    assert_eq!(p.clone(), p);
}

#[test]
fn error_text_names_the_failure() {
    let text = |e: WebsocketError| e.message();
    assert_eq!(
        text(WebsocketError::Upgrade("x".to_string())),
        "routerify-websocket: Websocket upgrade error: x"
    );
    assert_eq!(
        text(WebsocketError::MessageReceive("x".to_string())),
        "routerify-websocket: Failed to receive a message from the websocket connection: x"
    );
    assert_eq!(
        text(WebsocketError::ReadyStatus("x".to_string())),
        "routerify-websocket: Failed to check websocket's ready status to send messages: x"
    );
    assert_eq!(
        text(WebsocketError::MessageSend("x".to_string())),
        "routerify-websocket: Failed to send a message to the websocket connection: x"
    );
    assert_eq!(
        text(WebsocketError::MessageFlush("x".to_string())),
        "routerify-websocket: Failed to flush messages to the websocket connection: x"
    );
    assert_eq!(
        text(WebsocketError::DecodeText("x".to_string())),
        "routerify-websocket: Failed to decode message data as text: x"
    );
    assert_eq!(
        text(WebsocketError::DecodeJson("x".to_string())),
        "routerify-websocket: Failed to decode the message data as JSON: x"
    );
    assert_eq!(
        text(WebsocketError::EncodeJson("x".to_string())),
        "routerify-websocket: Failed to convert a struct to JSON: x"
    );
    assert_eq!(
        text(WebsocketError::WebSocketClose("x".to_string())),
        "routerify-websocket: Failed to close the websocket connection: x"
    );
    assert_eq!(
        text(WebsocketError::ReadinessViolation),
        "routerify-websocket: A message was sent before the connection was ready for it"
    );
    assert_eq!(text(WebsocketError::Closed), "routerify-websocket: The websocket connection is closed");
}

#[test]
fn error_parts() {
    let e = WebsocketError::MessageSend("broken pipe".to_string());
    assert_eq!(e.label(), "Failed to send a message to the websocket connection: ");
    assert_eq!(e.detail(), "broken pipe");
    assert_eq!(WebsocketError::Closed.detail(), "");
}

#[test]
fn json_text_becomes_a_text_message() {
    let encoded = serde_json::to_string(&vec![1, 2, 3]).map_err(|err| err.to_string());
    let m = Message::json(encoded).expect("a message");
    assert!(m.is_text());
    assert_eq!(m.as_text(), Ok("[1,2,3]"));
    assert_eq!(m, Message::text("[1,2,3]".into()));
}

#[test]
fn json_encoder_failure_is_passed_on() {
    let r = Message::json(Err("key must be a string".to_string()));
    assert_eq!(r, Err(WebsocketError::EncodeJson("key must be a string".to_string())));
}

#[test]
fn json_data_is_decoded() {
    let m = Message::text("{\"a\":[true,null]}".into());
    let decoded: Result<serde_json::Value, String> =
        serde_json::from_slice(&m.into_bytes()).map_err(|err| err.to_string());
    let value = Message::decode_json(decoded).expect("a value");
    assert_eq!(value["a"][0], serde_json::Value::Bool(true));
    assert_eq!(value["a"][1], serde_json::Value::Null);
}

#[test]
fn json_decoder_failure_is_passed_on() {
    let m = Message::binary(b"{".to_vec());
    let decoded: Result<serde_json::Value, String> =
        serde_json::from_slice(&m.into_bytes()).map_err(|err| err.to_string());
    match Message::decode_json(decoded) {
        Err(WebsocketError::DecodeJson(detail)) => {
            assert_eq!(detail, "EOF while parsing an object at line 1 column 1")
        }
        other => panic!("unexpected: {:?}", other),
    }
}
