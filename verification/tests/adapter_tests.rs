use websocket_server::config::server_address;
use websocket_server::config::Config;
use websocket_server::config::Ipv4Address;
use websocket_server::events::serialize_event;
use websocket_server::events::EventKind;
use websocket_server::sender::WebSocketSender;

#[test]
fn default_config_fields() {
    let config = Config::default();
    assert!(config.enabled);
    assert_eq!(config.listen_address, Ipv4Address::new(127, 0, 0, 1));
    assert_eq!(config.port, 5053);
}

#[test]
fn default_server_address() {
    let config = Config::default();
    assert_eq!(server_address(&config), "127.0.0.1:5053");
}

#[test]
fn server_address_all_zero() {
    let config = Config { enabled: false, listen_address: Ipv4Address::new(0, 0, 0, 0), port: 0 };
    assert_eq!(server_address(&config), "0.0.0.0:0");
}

#[test]
fn server_address_largest() {
    let config = Config {
        enabled: true,
        listen_address: Ipv4Address::new(255, 255, 255, 255),
        port: 65535,
    };
    assert_eq!(server_address(&config), "255.255.255.255:65535");
}

#[test]
fn dummy_send_always_succeeds() {
    let sender = WebSocketSender::dummy();
    assert_eq!(sender.send_string(String::new()), Ok(()));
    assert_eq!(sender.send_string(String::from("hello")), Ok(()));
    assert_eq!(sender.send_string(String::from("{\"kind\":\"test\",\"value\":1}")), Ok(()));
}

#[test]
fn dummy_register_always_succeeds() {
    let sender = WebSocketSender::dummy();
    assert_eq!(sender.register(EventKind { kind: String::from("test"), value: 1 }), Ok(()));
    assert_eq!(sender.register(EventKind { kind: String::new(), value: 0 }), Ok(()));
    assert_eq!(sender.register(EventKind { kind: String::from("\"\\\n"), value: u64::MAX }), Ok(()));
}

#[test]
fn dummy_register_matches_send_of_serialization() {
    let sender = WebSocketSender::dummy();
    let event = EventKind { kind: String::from("test"), value: 1 };
    let frame = serialize_event(&event);
    assert_eq!(sender.register(event), sender.send_string(frame));
}

#[test]
fn sample_event_frame() {
    let event = EventKind { kind: String::from("test"), value: 1 };
    assert_eq!(serialize_event(&event), "{\"kind\":\"test\",\"value\":1}");
}

#[test]
fn empty_tag_frame() {
    let event = EventKind { kind: String::new(), value: 0 };
    assert_eq!(serialize_event(&event), "{\"kind\":\"\",\"value\":0}");
}

#[test]
fn largest_value_frame() {
    let event = EventKind { kind: String::from("max"), value: u64::MAX };
    assert_eq!(serialize_event(&event), "{\"kind\":\"max\",\"value\":18446744073709551615}");
}

#[test]
fn quote_and_backslash_are_escaped() {
    let event = EventKind { kind: String::from("a\"b\\c"), value: 2 };
    assert_eq!(serialize_event(&event), "{\"kind\":\"a\\\"b\\\\c\",\"value\":2}");
}

#[test]
fn control_characters_are_escaped() {
    let event = EventKind { kind: String::from("line\nbreak\u{1f}"), value: 3 };
    assert_eq!(serialize_event(&event), "{\"kind\":\"line\\u000abreak\\u001f\",\"value\":3}");
}

#[test]
fn non_ascii_tag_stands_as_itself() {
    let event = EventKind { kind: String::from("b\u{e9}acon"), value: 9 };
    assert_eq!(serialize_event(&event), "{\"kind\":\"b\u{e9}acon\",\"value\":9}");
}

fn serde_json_frame(kind: &str, value: u64) -> String {
    let mut map = serde_json::Map::new();
    map.insert(String::from("kind"), serde_json::Value::String(String::from(kind)));
    map.insert(
        String::from("value"),
        serde_json::Value::Number(serde_json::Number::from(value)),
    );
    serde_json::to_string(&serde_json::Value::Object(map)).unwrap()
}

#[test]
fn frame_matches_serde_json_on_plain_tag() {
    let event = EventKind { kind: String::from("test"), value: 1 };
    assert_eq!(serialize_event(&event), serde_json_frame("test", 1));
}

#[test]
fn frame_matches_serde_json_on_escaped_tag() {
    let event = EventKind { kind: String::from("a\"b\\c"), value: u64::MAX };
    assert_eq!(serialize_event(&event), serde_json_frame("a\"b\\c", u64::MAX));
}
