use gateway_addon::{first_device_id, to_io_error, ErrorKind, GatewayError, Property, Registry, SwitchState};
use gateway_addon::json::{
    get_bool, get_number, get_object, get_optional_text, get_text, get_value, put_bool,
    put_number, put_object, put_optional_text, put_text, put_value, str_eq,
};
use gateway_addon::wire::{read_document, seal, unseal, write_document};
use serde_json::{Number, Value};

fn s(text: &str) -> String {
    text.to_string()
}

#[test]
fn registry_starts_empty() {
    let r: Registry<u32> = Registry::new();
    assert_eq!(r.len(), 0);
    assert_eq!(r.index_of("a"), None);
    assert_eq!(r.get("a"), None);
}

#[test]
fn registry_keeps_insertion_order() {
    let mut r = Registry::new();
    assert_eq!(r.insert(s("b"), 2), None);
    assert_eq!(r.insert(s("a"), 1), None);
    assert_eq!(r.insert(s("c"), 3), None);
    assert_eq!(r.len(), 3);
    assert_eq!(r.id_at(0), "b");
    assert_eq!(r.id_at(1), "a");
    assert_eq!(r.id_at(2), "c");
    assert_eq!(*r.item_at(1), 1);
    assert_eq!(r.index_of("c"), Some(2));
    assert_eq!(r.index_of("d"), None);
    assert_eq!(r.get("a"), Some(&1));
}

#[test]
fn registry_replaces_in_place() {
    let mut r = Registry::new();
    r.insert(s("a"), 1);
    r.insert(s("b"), 2);
    assert_eq!(r.insert(s("a"), 10), Some(1));
    assert_eq!(r.len(), 2);
    assert_eq!(r.id_at(0), "a");
    assert_eq!(*r.item_at(0), 10);
    assert_eq!(*r.item_at(1), 2);
}

#[test]
fn registry_items_change_in_place() {
    let mut r = Registry::new();
    r.insert(s("a"), 1);
    r.insert(s("b"), 2);
    *r.item_at_mut(1) += 5;
    assert_eq!(r.get("b"), Some(&7));
    assert_eq!(r.get("a"), Some(&1));
}

#[test]
fn registry_clone_is_equal() {
    let mut r = Registry::new();
    r.insert(s("a"), s("x"));
    r.insert(s("b"), s("y"));
    let c = r.clone();
    assert_eq!(c, r);
    assert_eq!(c.id_at(1), "b");
    assert_eq!(c.item_at(1), "y");
}

#[test]
fn errors_carry_kind_and_message() {
    let e = GatewayError::new(ErrorKind::Transport, "down");
    assert_eq!(e.kind(), ErrorKind::Transport);
    assert_eq!(e.message(), "down");
    assert_eq!(GatewayError::not_found("gone").kind, ErrorKind::NotFound);
    assert_eq!(GatewayError::not_found("gone").message, "gone");
    assert_eq!(GatewayError::malformed("bad").kind, ErrorKind::Malformed);
    assert_eq!(GatewayError::malformed("bad").message, "bad");
}

#[test]
fn to_io_error_wraps_the_text() {
    let e = to_io_error(s("sending on a closed channel"));
    assert_eq!(e.kind, ErrorKind::Other);
    assert_eq!(e.message, "sending on a closed channel");
}

#[test]
fn first_device_id_appends_zero() {
    assert_eq!(first_device_id("mqtt-0"), "mqtt-0-0");
    assert_eq!(first_device_id(""), "-0");
}

#[test]
fn switch_starts_switched_on() {
    let sw = SwitchState::new();
    assert_eq!(sw.value("on"), Some(&Value::Bool(true)));
    assert_eq!(sw.value("off"), None);
    let props = sw.get_properties();
    assert_eq!(props.len(), 1);
    let d = props.get("on").unwrap();
    assert_eq!(d.name, "on");
    assert_eq!(d.value, Value::Bool(true));
    assert_eq!(d.typ, "boolean");
    assert_eq!(d.unit, None);
    assert_eq!(d.description, None);
    assert_eq!(d.min, None);
    assert_eq!(d.max, None);
    assert!(d.visible);
}

#[test]
fn switch_records_applied_values() {
    let mut sw = SwitchState::new();
    sw.apply(&Property { name: s("on"), value: Value::Bool(false) });
    assert_eq!(sw.value("on"), Some(&Value::Bool(false)));
    sw.apply(&Property { name: s("level"), value: Value::Number(Number::from(3u64)) });
    assert_eq!(sw.value("level"), Some(&Value::Number(Number::from(3u64))));
    assert_eq!(sw.value("on"), Some(&Value::Bool(false)));
    assert_eq!(sw.get_properties().get("on").unwrap().value, Value::Bool(true));
    assert_eq!(sw.get_properties().len(), 1);
}

#[test]
fn strings_compare_by_text() {
    assert!(str_eq("abc", "abc"));
    assert!(!str_eq("abc", "abd"));
    assert!(!str_eq("abc", "ab"));
    assert!(str_eq("", ""));
}

#[test]
fn members_are_put_and_read() {
    let mut m = serde_json::Map::new();
    put_text(&mut m, "t", "text");
    put_bool(&mut m, "b", true);
    put_number(&mut m, "n", &Number::from(5u64));
    put_value(&mut m, "v", &Value::Null);
    let mut inner = serde_json::Map::new();
    put_text(&mut inner, "k", "v");
    put_object(&mut m, "o", inner.clone());
    put_optional_text(&mut m, "some", &Some(s("x")));
    put_optional_text(&mut m, "none", &None);
    assert_eq!(Value::Object(m.clone()), serde_json::from_str::<Value>("{\"t\":\"text\",\"b\":true,\"n\":5,\"v\":null,\"o\":{\"k\":\"v\"},\"some\":\"x\"}").unwrap());
    assert_eq!(get_text(&m, "t"), Some(s("text")));
    assert_eq!(get_text(&m, "b"), None);
    assert_eq!(get_text(&m, "missing"), None);
    assert_eq!(get_bool(&m, "b"), Some(true));
    assert_eq!(get_bool(&m, "t"), None);
    assert_eq!(get_number(&m, "n"), Some(Number::from(5u64)));
    assert_eq!(get_number(&m, "t"), None);
    assert_eq!(get_value(&m, "v"), Some(Value::Null));
    assert_eq!(get_value(&m, "o"), Some(Value::Object(inner.clone())));
    assert_eq!(get_value(&m, "missing"), None);
    assert_eq!(get_object(&m, "o"), Some(&inner));
    assert_eq!(get_object(&m, "t"), None);
    assert_eq!(get_optional_text(&m, "some"), Some(Some(s("x"))));
    assert_eq!(get_optional_text(&m, "none"), Some(None));
    assert_eq!(get_optional_text(&m, "v"), Some(None));
    assert_eq!(get_optional_text(&m, "b"), None);
}

#[test]
fn put_replaces_a_member() {
    let mut m = serde_json::Map::new();
    put_text(&mut m, "k", "one");
    put_text(&mut m, "k", "two");
    assert_eq!(m.len(), 1);
    assert_eq!(get_text(&m, "k"), Some(s("two")));
}

#[test]
fn envelopes_seal_and_unseal() {
    let mut d = serde_json::Map::new();
    put_text(&mut d, "pluginId", "p1");
    let doc = seal("unloadPlugin", d.clone());
    assert_eq!(write_document(&doc).unwrap(), "{\"data\":{\"pluginId\":\"p1\"},\"messageType\":\"unloadPlugin\"}");
    assert_eq!(unseal(&doc), Some((s("unloadPlugin"), &d)));
    assert_eq!(unseal(&Value::Null), None);
    assert_eq!(unseal(&serde_json::from_str::<Value>("{\"messageType\":5,\"data\":{}}").unwrap()), None);
    assert_eq!(unseal(&serde_json::from_str::<Value>("{\"messageType\":\"x\",\"data\":5}").unwrap()), None);
}

#[test]
fn documents_are_read_and_written() {
    let doc = read_document(b" {\"b\": [1, 2.5, \"x\"], \"a\": null} ").unwrap();
    assert_eq!(write_document(&doc).unwrap(), "{\"a\":null,\"b\":[1,2.5,\"x\"]}");
    assert_eq!(read_document(b"{\"a\":"), None);
    assert_eq!(read_document(b""), None);
}
