use routerify_websocket::handshake::{
    extract_upgradable_key, has_upgrade_option, is_supported_version, is_websocket_upgrade,
    is_wellformed_key, some, HandshakeHeaders, NegotiationKey,
};
use routerify_websocket::upgrade::{
    complete_takeover, upgrade_ws, upgrade_ws_with_config, UpgradeResponse,
};
use routerify_websocket::websocket::{ConnectionState, RemoteAddr, WebSocketConfig};
use routerify_websocket::WebsocketError;

const SAMPLE_KEY: &str = "dGhlIHNhbXBsZSBub25jZQ==";
const SAMPLE_ACCEPT: &str = "s3pPLMBiTxaQ9kYGzzhZRbK+xOo=";
const REFUSAL: &str = "BAD REQUEST: The request is not websocket";

fn bytes(s: &str) -> Option<Vec<u8>> {
    Some(s.as_bytes().to_vec())
}

fn good_headers() -> HandshakeHeaders {
    HandshakeHeaders {
        connection: bytes("Upgrade"),
        upgrade: bytes("websocket"),
        version: bytes("13"),
        key: bytes(SAMPLE_KEY),
    }
}

fn peer() -> RemoteAddr {
    RemoteAddr::V4 { octets: [127, 0, 0, 1], port: 4000 }
}

#[test]
fn some_follows_its_condition() {
    assert_eq!(some(true), Some(()));
    assert_eq!(some(false), None);
}

#[test]
fn complete_handshake_yields_the_key() {
    let key = extract_upgradable_key(&good_headers()).expect("a key");
    assert_eq!(key.as_bytes(), SAMPLE_KEY.as_bytes());
}

#[test]
fn missing_connection_header_yields_no_key() {
    let mut headers = good_headers();
    headers.connection = None;
    assert!(extract_upgradable_key(&headers).is_none());
    let out = upgrade_ws(&headers);
    assert_eq!(out.response.status, 400);
    assert_eq!(out.response.body, REFUSAL);
    assert_eq!(out.takeover, None);
}

#[test]
fn connection_without_upgrade_option_yields_no_key() {
    let mut headers = good_headers();
    headers.connection = bytes("keep-alive");
    assert!(extract_upgradable_key(&headers).is_none());
    let out = upgrade_ws(&headers);
    assert_eq!(out.response.status, 400);
    assert_eq!(out.response.body, REFUSAL);
}

#[test]
fn missing_upgrade_header_yields_no_key() {
    let mut headers = good_headers();
    headers.upgrade = None;
    assert!(extract_upgradable_key(&headers).is_none());
    let out = upgrade_ws(&headers);
    assert_eq!(out.response.status, 400);
    assert_eq!(out.response.body, REFUSAL);
}

#[test]
fn upgrade_to_another_protocol_yields_no_key() {
    let mut headers = good_headers();
    headers.upgrade = bytes("h2c");
    assert!(extract_upgradable_key(&headers).is_none());
    assert_eq!(upgrade_ws(&headers).response, UpgradeResponse::bad_request());
}

#[test]
fn missing_version_yields_no_key() {
    let mut headers = good_headers();
    headers.version = None;
    assert!(extract_upgradable_key(&headers).is_none());
    let out = upgrade_ws(&headers);
    assert_eq!(out.response.status, 400);
    assert_eq!(out.response.body, REFUSAL);
}

#[test]
fn other_version_yields_no_key() {
    let mut headers = good_headers();
    headers.version = bytes("12");
    assert!(extract_upgradable_key(&headers).is_none());
    headers.version = bytes("13 ");
    assert!(extract_upgradable_key(&headers).is_none());
    headers.version = bytes("013");
    assert!(extract_upgradable_key(&headers).is_none());
}

#[test]
fn missing_key_yields_no_key() {
    let mut headers = good_headers();
    headers.key = None;
    assert!(extract_upgradable_key(&headers).is_none());
    let out = upgrade_ws(&headers);
    assert_eq!(out.response.status, 400);
    assert_eq!(out.response.body, REFUSAL);
    assert_eq!(out.response.connection, None);
    assert_eq!(out.response.upgrade, None);
    assert_eq!(out.response.accept, None);
}

#[test]
fn malformed_key_yields_no_key() {
    let mut headers = good_headers();
    headers.key = bytes("not a key");
    assert!(extract_upgradable_key(&headers).is_none());
    assert_eq!(upgrade_ws(&headers).response.status, 400);
}

#[test]
fn empty_request_is_refused() {
    let headers = HandshakeHeaders { connection: None, upgrade: None, version: None, key: None };
    let out = upgrade_ws_with_config(&headers, WebSocketConfig::default());
    assert_eq!(out.response, UpgradeResponse::bad_request());
    assert_eq!(out.takeover, None);
}

#[test]
fn sample_key_is_signed_with_the_sample_accept() {
    let key = NegotiationKey::parse(SAMPLE_KEY.as_bytes()).expect("a key");
    assert_eq!(key.accept(), SAMPLE_ACCEPT);
}

#[test]
fn signature_is_not_the_key() {
    let key = NegotiationKey::parse(b"AAAAAAAAAAAAAAAAAAAAAA==").expect("a key");
    let accept = key.accept();
    assert_ne!(accept.as_bytes(), key.as_bytes());
    assert_eq!(accept.len(), 28);
    assert_eq!(accept, "ICX+Yqv66kxgM0FcWaLWlFLwTAI=");
}

#[test]
fn connection_list_with_upgrade_passes() {
    assert!(has_upgrade_option(b"keep-alive, Upgrade"));
    let mut headers = good_headers();
    headers.connection = bytes("keep-alive, Upgrade");
    assert!(extract_upgradable_key(&headers).is_some());
}

#[test]
fn connection_option_matches_in_any_case() {
    assert!(has_upgrade_option(b"upgrade"));
    assert!(has_upgrade_option(b"Upgrade"));
    assert!(has_upgrade_option(b"UPGRADE"));
    assert!(has_upgrade_option(b"uPgRaDe"));
}

#[test]
fn connection_option_is_trimmed() {
    assert!(has_upgrade_option(b"  upgrade\t"));
    assert!(has_upgrade_option(b"close ,\tupgrade , keep-alive"));
    assert!(has_upgrade_option(b"upgrade,"));
    assert!(has_upgrade_option(b",upgrade"));
}

#[test]
fn connection_without_the_option_fails() {
    assert!(!has_upgrade_option(b""));
    assert!(!has_upgrade_option(b"   "));
    assert!(!has_upgrade_option(b","));
    assert!(!has_upgrade_option(b"keep-alive"));
    assert!(!has_upgrade_option(b"upgrades"));
    assert!(!has_upgrade_option(b"xupgrade"));
    assert!(!has_upgrade_option(b"up grade"));
    assert!(!has_upgrade_option(b"upgrade close"));
    assert!(!has_upgrade_option(b"keep-alive, close"));
    assert!(!has_upgrade_option(b"upgrad,e"));
}

#[test]
fn upgrade_header_matches_in_any_case() {
    assert!(is_websocket_upgrade(b"websocket"));
    assert!(is_websocket_upgrade(b"WebSocket"));
    assert!(is_websocket_upgrade(b"WEBSOCKET"));
    assert!(!is_websocket_upgrade(b"websockets"));
    assert!(!is_websocket_upgrade(b" websocket"));
    assert!(!is_websocket_upgrade(b""));
}

#[test]
fn version_must_read_thirteen() {
    assert!(is_supported_version(b"13"));
    assert!(!is_supported_version(b"1"));
    assert!(!is_supported_version(b"31"));
    assert!(!is_supported_version(b"14"));
    assert!(!is_supported_version(b""));
}

#[test]
fn key_must_encode_sixteen_bytes() {
    assert!(is_wellformed_key(SAMPLE_KEY.as_bytes()));
    assert!(is_wellformed_key(b"AAAAAAAAAAAAAAAAAAAAAA=="));
    assert!(is_wellformed_key(b"+/+/+/+/+/+/+/+/+/+/+w=="));
    // too short, too long
    assert!(!is_wellformed_key(b""));
    assert!(!is_wellformed_key(b"dGhlIHNhbXBsZSBub25jZQ="));
    assert!(!is_wellformed_key(b"dGhlIHNhbXBsZSBub25jZQ==="));
    // a byte outside the alphabet
    assert!(!is_wellformed_key(b"dGhlIHNhbXBsZSBub25j-Q=="));
    assert!(!is_wellformed_key(b"dGhlIHNhbXBs SBub25jZQ=="));
    // a last symbol that carries more than two bits
    assert!(!is_wellformed_key(b"dGhlIHNhbXBsZSBub25jZR=="));
    // padding in the wrong place
    assert!(!is_wellformed_key(b"dGhlIHNhbXBsZSBub25jZQ=A"));
    assert!(!is_wellformed_key(b"dGhlIHNhbXBsZSBub25jZQA="));
    assert!(!is_wellformed_key(b"dGhlIHNhbXBsZSBub25j=Q=="));
}

#[test]
fn parse_takes_wellformed_keys_only() {
    assert!(NegotiationKey::parse(b"dGhlIHNhbXBsZSBub25jZQ==").is_some());
    assert!(NegotiationKey::parse(b"dGhlIHNhbXBsZSBub25jZQ").is_none());
}

#[test]
fn granted_upgrade_carries_the_handshake_headers() {
    let config = WebSocketConfig {
        max_send_queue: Some(8),
        max_message_size: Some(1024),
        max_frame_size: None,
        accept_unmasked_frames: true,
    };
    let out = upgrade_ws_with_config(&good_headers(), config);
    assert_eq!(out.response.status, 101);
    assert_eq!(out.response.connection.as_deref(), Some("Upgrade"));
    assert_eq!(out.response.upgrade.as_deref(), Some("websocket"));
    assert_eq!(out.response.accept.as_deref(), Some(SAMPLE_ACCEPT));
    assert_eq!(out.response.body, "");
    assert_eq!(out.takeover, Some(config));
}

#[test]
fn upgrade_ws_takes_over_with_default_settings() {
    let out = upgrade_ws(&good_headers());
    assert_eq!(out.response, UpgradeResponse::switching_protocols(SAMPLE_ACCEPT.to_string()));
    let config = out.takeover.expect("a takeover");
    assert_eq!(config.max_send_queue, None);
    assert_eq!(config.max_message_size, Some(64 << 20));
    assert_eq!(config.max_frame_size, Some(16 << 20));
    assert!(!config.accept_unmasked_frames);
}

#[test]
fn successful_takeover_gives_an_open_connection() {
    let config = WebSocketConfig::default();
    let ws = complete_takeover(Ok(()), peer(), config).expect("a connection");
    assert_eq!(ws.state(), ConnectionState::Open);
    assert_eq!(ws.remote_addr(), peer());
    assert_eq!(ws.config(), config);
    assert!(!ws.is_ready());
}

#[test]
fn failed_takeover_is_reported() {
    let r = complete_takeover(Err("connection reset".to_string()), peer(), WebSocketConfig::default());
    assert_eq!(r.err(), Some(WebsocketError::Upgrade("connection reset".to_string())));
}
