use gateway_addon::{ConnectPacket, ErrorKind, PublishPacket, MQTT};
use serde_json::{Number, Value};

fn s(text: &str) -> String {
    text.to_string()
}

fn mqtt_string(text: &str) -> Vec<u8> {
    let mut out = vec![(text.len() >> 8) as u8, (text.len() & 0xff) as u8];
    out.extend_from_slice(text.as_bytes());
    out
}

#[test]
fn connect_packet_fields() {
    let m = MQTT::new("user", "pass");
    assert_eq!(
        m.connect_packet(),
        ConnectPacket {
            protocol_name: s("MQTT"),
            protocol_level: 4,
            keep_alive: 65535,
            client_id: s("rust-mq-example-pub"),
            clean_session: true,
            username: Some(s("user")),
            password: Some(s("pass")),
        }
    );
}

#[test]
fn connect_bytes_are_exact() {
    let m = MQTT::new("user", "pass");
    let mut expected = vec![0x10, 43];
    expected.extend(mqtt_string("MQTT"));
    expected.extend([4, 0xC2, 0xFF, 0xFF]);
    expected.extend(mqtt_string("rust-mq-example-pub"));
    expected.extend(mqtt_string("user"));
    expected.extend(mqtt_string("pass"));
    assert_eq!(m.send_connect().unwrap(), expected);
}

#[test]
fn value_packet_fields() {
    let m = MQTT::new("user", "pass");
    assert_eq!(
        m.value_packet("on", &Value::Bool(true)).unwrap(),
        PublishPacket {
            dup: false,
            qos: 1,
            retain: false,
            topic_name: s("user/feeds/on"),
            pid: Some(10),
            payload: b"true".to_vec(),
        }
    );
    let p = m.value_packet("level", &Value::Number(Number::from(42u64))).unwrap();
    assert_eq!(p.topic_name, "user/feeds/level");
    assert_eq!(p.payload, b"42".to_vec());
    let p = m.value_packet("name", &Value::String(s("a\"b"))).unwrap();
    assert_eq!(p.payload, b"\"a\\\"b\"".to_vec());
}

#[test]
fn publish_value_bytes_are_exact() {
    let m = MQTT::new("user", "pass");
    let mut expected = vec![0x32, 21];
    expected.extend(mqtt_string("user/feeds/on"));
    expected.extend([0, 10]);
    expected.extend(b"true");
    assert_eq!(m.publish_value("on", &Value::Bool(true)).unwrap(), expected);
}

#[test]
fn action_packet_fields() {
    let m = MQTT::new("user", "pass");
    assert_eq!(
        m.action_packet("blink"),
        PublishPacket {
            dup: false,
            qos: 1,
            retain: false,
            topic_name: s("user/feeds/actions"),
            pid: Some(10),
            payload: b"blink".to_vec(),
        }
    );
}

#[test]
fn publish_action_bytes_are_exact() {
    let m = MQTT::new("user", "pass");
    let mut expected = vec![0x32, 27];
    expected.extend(mqtt_string("user/feeds/actions"));
    expected.extend([0, 10]);
    expected.extend(b"blink");
    assert_eq!(m.publish_action("blink").unwrap(), expected);
}

#[test]
fn long_packets_use_longer_lengths() {
    let m = MQTT::new("user", "pass");
    let name = "x".repeat(200);
    let bytes = m.publish_action(&name).unwrap();
    let len = 18 + 2 + 2 + 200;
    assert_eq!(&bytes[..3], &[0x32, (len % 128) as u8 | 0x80, (len / 128) as u8]);
    assert_eq!(bytes.len(), 3 + len);
}

#[test]
fn oversized_payload_is_an_error() {
    let m = MQTT::new("user", "pass");
    let name = "x".repeat(268_435_456);
    let e = m.publish_action(&name).unwrap_err();
    assert_eq!(e.kind, ErrorKind::Other);
    assert_eq!(e.message, "mqtt3 error");
}
