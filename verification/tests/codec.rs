use gateway_addon::{
    ActionDescription, ErrorKind, GatewayMessage, GatewayRegisterMessage, PluginMessage,
    PluginRegisterMessage, Property, PropertyDescription, Registry,
};
use serde_json::{Number, Value};

fn s(text: &str) -> String {
    text.to_string()
}

fn json(text: &str) -> Value {
    serde_json::from_str(text).unwrap()
}

fn on_description() -> PropertyDescription {
    PropertyDescription {
        name: s("on"),
        value: Value::Bool(false),
        typ: s("boolean"),
        unit: None,
        description: Some(s("power")),
        min: None,
        max: None,
        visible: true,
    }
}

fn level_description() -> PropertyDescription {
    PropertyDescription {
        name: s("level"),
        value: Value::Number(Number::from(40u64)),
        typ: s("number"),
        unit: Some(s("percent")),
        description: None,
        min: Some(s("0")),
        max: Some(s("100")),
        visible: false,
    }
}

fn device_added() -> PluginMessage {
    let mut properties = Registry::new();
    properties.insert(s("on"), on_description());
    properties.insert(s("level"), level_description());
    let mut actions = Registry::new();
    actions.insert(s("blink"), ActionDescription { name: s("blink") });
    PluginMessage::HandleDeviceAdded {
        plugin_id: s("p1"),
        adapter_id: s("a1"),
        id: s("d1"),
        name: s("Lamp"),
        typ: s("onOffSwitch"),
        properties,
        actions,
    }
}

fn all_commands() -> Vec<GatewayMessage> {
    vec![
        GatewayMessage::UnloadPlugin { plugin_id: s("p1") },
        GatewayMessage::UnloadAdapter { plugin_id: s("p1"), adapter_id: s("a1") },
        GatewayMessage::SetProperty {
            plugin_id: s("p1"),
            adapter_id: s("a1"),
            device_id: s("d1"),
            property_name: s("on"),
            property_value: Value::Bool(true),
        },
        GatewayMessage::RequestAction {
            plugin_id: s("p1"),
            adapter_id: s("a1"),
            device_id: s("d1"),
            action_id: Number::from(7u64),
            action_name: s("blink"),
            input: json("{\"times\":3}"),
        },
        GatewayMessage::StartPairing {
            plugin_id: s("p1"),
            adapter_id: s("a1"),
            timeout: Number::from_f64(1.5).unwrap(),
        },
        GatewayMessage::CancelPairing { plugin_id: s("p1"), adapter_id: s("a1") },
        GatewayMessage::RemoveThing { plugin_id: s("p1"), adapter_id: s("a1"), device_id: s("d1") },
        GatewayMessage::CancelRemoveThing {
            plugin_id: s("p1"),
            adapter_id: s("a1"),
            device_id: s("d1"),
        },
    ]
}

fn all_events() -> Vec<PluginMessage> {
    vec![
        PluginMessage::PluginUnloaded { plugin_id: s("p1") },
        PluginMessage::AdapterUnloaded { plugin_id: s("p1"), adapter_id: s("a1") },
        PluginMessage::AddAdapter {
            plugin_id: s("p1"),
            adapter_id: s("a1"),
            name: s("Adapter"),
            package_name: s("pkg"),
        },
        device_added(),
        PluginMessage::HandleDeviceRemoved { plugin_id: s("p1"), adapter_id: s("a1"), id: s("d1") },
        PluginMessage::PropertyChanged {
            plugin_id: s("p1"),
            adapter_id: s("a1"),
            device_id: s("d1"),
            property: Property { name: s("on"), value: Value::Bool(true) },
        },
    ]
}

#[test]
fn register_request_text_is_exact() {
    let m = PluginRegisterMessage::RegisterPlugin { plugin_id: s("mqtt-adapter") };
    assert_eq!(
        m.encode().unwrap(),
        "{\"data\":{\"pluginId\":\"mqtt-adapter\"},\"messageType\":\"registerPlugin\"}"
    );
}

#[test]
fn register_request_document_has_two_members() {
    let m = PluginRegisterMessage::RegisterPlugin { plugin_id: s("p1") };
    assert_eq!(m.to_json(), json("{\"messageType\":\"registerPlugin\",\"data\":{\"pluginId\":\"p1\"}}"));
}

#[test]
fn register_request_round_trip() {
    let m = PluginRegisterMessage::RegisterPlugin { plugin_id: s("p1") };
    let text = m.encode().unwrap();
    assert_eq!(PluginRegisterMessage::decode(text.as_bytes()).unwrap(), m);
    assert_eq!(PluginRegisterMessage::from_json(&m.to_json()), Some(m));
}

#[test]
fn register_reply_decodes() {
    let text = "{\"messageType\":\"registerPluginReply\",\"data\":{\"pluginId\":\"p1\",\"ipcBaseAddr\":\"gateway.plugin.p1\"}}";
    assert_eq!(
        GatewayRegisterMessage::decode(text.as_bytes()).unwrap(),
        GatewayRegisterMessage::RegisterPluginReply {
            plugin_id: s("p1"),
            ipc_base_addr: s("gateway.plugin.p1"),
        }
    );
}

#[test]
fn register_reply_round_trip() {
    let m = GatewayRegisterMessage::RegisterPluginReply {
        plugin_id: s("p1"),
        ipc_base_addr: s("gateway.plugin.p1"),
    };
    assert_eq!(
        m.encode().unwrap(),
        "{\"data\":{\"ipcBaseAddr\":\"gateway.plugin.p1\",\"pluginId\":\"p1\"},\"messageType\":\"registerPluginReply\"}"
    );
    assert_eq!(GatewayRegisterMessage::decode(m.encode().unwrap().as_bytes()).unwrap(), m);
}

#[test]
fn register_reply_without_address_is_malformed() {
    let text = "{\"messageType\":\"registerPluginReply\",\"data\":{\"pluginId\":\"p1\"}}";
    let e = GatewayRegisterMessage::decode(text.as_bytes()).unwrap_err();
    assert_eq!(e.kind, ErrorKind::Malformed);
    assert_eq!(e.message, "malformed message");
}

#[test]
fn register_reply_of_another_type_is_malformed() {
    let text = "{\"messageType\":\"registerPlugin\",\"data\":{\"pluginId\":\"p1\",\"ipcBaseAddr\":\"x\"}}";
    assert!(GatewayRegisterMessage::decode(text.as_bytes()).is_err());
}

#[test]
fn every_command_round_trips() {
    for m in all_commands() {
        let text = m.encode().unwrap();
        assert_eq!(GatewayMessage::decode(text.as_bytes()).unwrap(), m);
        assert_eq!(GatewayMessage::from_json(&m.to_json()), Some(m));
    }
}

#[test]
fn every_event_round_trips() {
    for m in all_events() {
        let text = m.encode().unwrap();
        let back = PluginMessage::decode(text.as_bytes()).unwrap();
        assert_eq!(back.to_json(), m.to_json());
        assert_eq!(PluginMessage::from_json(&m.to_json()).unwrap().to_json(), m.to_json());
    }
}

#[test]
fn events_without_tables_round_trip_to_equal_values() {
    for m in all_events() {
        if let PluginMessage::HandleDeviceAdded { .. } = m {
            continue;
        }
        assert_eq!(PluginMessage::decode(m.encode().unwrap().as_bytes()).unwrap(), m);
    }
}

#[test]
fn device_added_reads_back_by_name() {
    let back = PluginMessage::decode(device_added().encode().unwrap().as_bytes()).unwrap();
    match back {
        PluginMessage::HandleDeviceAdded { plugin_id, adapter_id, id, name, typ, properties, actions } => {
            assert_eq!(plugin_id, "p1");
            assert_eq!(adapter_id, "a1");
            assert_eq!(id, "d1");
            assert_eq!(name, "Lamp");
            assert_eq!(typ, "onOffSwitch");
            assert_eq!(properties.len(), 2);
            assert_eq!(properties.get("on"), Some(&on_description()));
            assert_eq!(properties.get("level"), Some(&level_description()));
            assert_eq!(actions.len(), 1);
            assert_eq!(actions.get("blink"), Some(&ActionDescription { name: s("blink") }));
        }
        other => panic!("unexpected event {:?}", other),
    }
}

#[test]
fn set_property_decodes_from_the_wire() {
    let text = "{\"messageType\":\"setProperty\",\"data\":{\"pluginId\":\"p1\",\"adapterId\":\"a1\",\"deviceId\":\"d1\",\"propertyName\":\"on\",\"propertyValue\":true}}";
    assert_eq!(
        GatewayMessage::decode(text.as_bytes()).unwrap(),
        GatewayMessage::SetProperty {
            plugin_id: s("p1"),
            adapter_id: s("a1"),
            device_id: s("d1"),
            property_name: s("on"),
            property_value: Value::Bool(true),
        }
    );
}

#[test]
fn set_property_text_is_exact() {
    let m = GatewayMessage::SetProperty {
        plugin_id: s("p1"),
        adapter_id: s("a1"),
        device_id: s("d1"),
        property_name: s("on"),
        property_value: Value::Bool(true),
    };
    assert_eq!(
        m.encode().unwrap(),
        "{\"data\":{\"adapterId\":\"a1\",\"deviceId\":\"d1\",\"pluginId\":\"p1\",\"propertyName\":\"on\",\"propertyValue\":true},\"messageType\":\"setProperty\"}"
    );
}

#[test]
fn request_action_decodes_numbers_and_input() {
    let text = "{\"messageType\":\"requestAction\",\"data\":{\"pluginId\":\"p1\",\"adapterId\":\"a1\",\"deviceId\":\"d1\",\"actionId\":12,\"actionName\":\"blink\",\"input\":{\"times\":3}}}";
    match GatewayMessage::decode(text.as_bytes()).unwrap() {
        GatewayMessage::RequestAction { action_id, action_name, input, .. } => {
            assert_eq!(action_id.as_u64(), Some(12));
            assert_eq!(action_name, "blink");
            assert_eq!(input, json("{\"times\":3}"));
        }
        other => panic!("unexpected command {:?}", other),
    }
}

#[test]
fn start_pairing_needs_a_number_for_timeout() {
    let good = "{\"messageType\":\"startPairing\",\"data\":{\"pluginId\":\"p1\",\"adapterId\":\"a1\",\"timeout\":60}}";
    assert!(GatewayMessage::decode(good.as_bytes()).is_ok());
    let bad = "{\"messageType\":\"startPairing\",\"data\":{\"pluginId\":\"p1\",\"adapterId\":\"a1\",\"timeout\":\"60\"}}";
    assert_eq!(GatewayMessage::decode(bad.as_bytes()).unwrap_err().kind, ErrorKind::Malformed);
}

#[test]
fn unknown_fields_are_ignored() {
    let text = "{\"extra\":1,\"messageType\":\"unloadAdapter\",\"data\":{\"pluginId\":\"p1\",\"adapterId\":\"a1\",\"more\":[1,2]}}";
    assert_eq!(
        GatewayMessage::decode(text.as_bytes()).unwrap(),
        GatewayMessage::UnloadAdapter { plugin_id: s("p1"), adapter_id: s("a1") }
    );
}

#[test]
fn unknown_message_type_is_malformed() {
    let text = "{\"messageType\":\"selfDestruct\",\"data\":{\"pluginId\":\"p1\"}}";
    let e = GatewayMessage::decode(text.as_bytes()).unwrap_err();
    assert_eq!(e.kind, ErrorKind::Malformed);
}

#[test]
fn event_type_is_no_command() {
    let text = PluginMessage::PluginUnloaded { plugin_id: s("p1") }.encode().unwrap();
    assert!(GatewayMessage::decode(text.as_bytes()).is_err());
}

#[test]
fn missing_field_is_malformed() {
    let text = "{\"messageType\":\"removeThing\",\"data\":{\"pluginId\":\"p1\",\"adapterId\":\"a1\"}}";
    assert!(GatewayMessage::decode(text.as_bytes()).is_err());
}

#[test]
fn wrong_field_kind_is_malformed() {
    let text = "{\"messageType\":\"unloadPlugin\",\"data\":{\"pluginId\":5}}";
    assert!(GatewayMessage::decode(text.as_bytes()).is_err());
}

#[test]
fn missing_data_is_malformed() {
    assert!(GatewayMessage::decode("{\"messageType\":\"unloadPlugin\"}".as_bytes()).is_err());
    assert!(GatewayMessage::decode("{\"messageType\":\"unloadPlugin\",\"data\":[]}".as_bytes()).is_err());
}

#[test]
fn bytes_that_are_no_json_are_malformed() {
    for text in ["", "{", "not json", "{\"messageType\":\"unloadPlugin\",\"data\":{\"pluginId\":\"p1\"}} tail", "[1,2]", "null"] {
        let e = GatewayMessage::decode(text.as_bytes()).unwrap_err();
        assert_eq!(e.kind, ErrorKind::Malformed);
        assert_eq!(e.message, "malformed message");
    }
    assert!(GatewayMessage::decode(&[0xff, 0xfe]).is_err());
}

#[test]
fn from_json_rejects_what_is_no_object() {
    assert_eq!(GatewayMessage::from_json(&Value::Null), None);
    assert_eq!(GatewayMessage::from_json(&Value::Bool(true)), None);
    assert_eq!(PluginMessage::from_json(&json("[\"pluginUnloaded\",{\"pluginId\":\"p1\"}]")), None);
}

#[test]
fn property_changed_text_is_exact() {
    let m = PluginMessage::PropertyChanged {
        plugin_id: s("p1"),
        adapter_id: s("a1"),
        device_id: s("d1"),
        property: Property { name: s("on"), value: Value::Bool(true) },
    };
    assert_eq!(
        m.encode().unwrap(),
        "{\"data\":{\"adapterId\":\"a1\",\"deviceId\":\"d1\",\"pluginId\":\"p1\",\"property\":{\"name\":\"on\",\"value\":true}},\"messageType\":\"propertyChanged\"}"
    );
}

#[test]
fn add_adapter_text_is_exact() {
    let m = PluginMessage::AddAdapter {
        plugin_id: s("p1"),
        adapter_id: s("a1"),
        name: s("MQTT Adapter"),
        package_name: s("mqtt"),
    };
    assert_eq!(
        m.encode().unwrap(),
        "{\"data\":{\"adapterId\":\"a1\",\"name\":\"MQTT Adapter\",\"packageName\":\"mqtt\",\"pluginId\":\"p1\"},\"messageType\":\"addAdapter\"}"
    );
}

#[test]
fn device_added_document_is_exact() {
    let expected = json(
        "{\"messageType\":\"handleDeviceAdded\",\"data\":{\"pluginId\":\"p1\",\"adapterId\":\"a1\",\"id\":\"d1\",\"name\":\"Lamp\",\"type\":\"onOffSwitch\",\"properties\":{\"on\":{\"name\":\"on\",\"value\":false,\"type\":\"boolean\",\"description\":\"power\",\"visible\":true},\"level\":{\"name\":\"level\",\"value\":40,\"type\":\"number\",\"unit\":\"percent\",\"min\":\"0\",\"max\":\"100\",\"visible\":false}},\"actions\":{\"blink\":{\"name\":\"blink\"}}}}",
    );
    assert_eq!(device_added().to_json(), expected);
}

#[test]
fn absent_options_are_left_out_and_null_reads_as_absent() {
    let text = "{\"messageType\":\"handleDeviceAdded\",\"data\":{\"pluginId\":\"p1\",\"adapterId\":\"a1\",\"id\":\"d1\",\"name\":\"Lamp\",\"type\":\"thing\",\"properties\":{\"on\":{\"name\":\"on\",\"value\":true,\"type\":\"boolean\",\"unit\":null,\"visible\":true}},\"actions\":{}}}";
    match PluginMessage::decode(text.as_bytes()).unwrap() {
        PluginMessage::HandleDeviceAdded { properties, actions, .. } => {
            let d = properties.get("on").unwrap();
            assert_eq!(d.unit, None);
            assert_eq!(d.description, None);
            assert_eq!(d.min, None);
            assert_eq!(d.max, None);
            assert!(d.visible);
            assert_eq!(actions.len(), 0);
        }
        other => panic!("unexpected event {:?}", other),
    }
}

#[test]
fn a_bad_description_spoils_the_event() {
    let text = "{\"messageType\":\"handleDeviceAdded\",\"data\":{\"pluginId\":\"p1\",\"adapterId\":\"a1\",\"id\":\"d1\",\"name\":\"Lamp\",\"type\":\"thing\",\"properties\":{\"on\":{\"name\":\"on\",\"value\":true,\"type\":\"boolean\"}},\"actions\":{}}}";
    assert!(PluginMessage::decode(text.as_bytes()).is_err());
    let text = "{\"messageType\":\"handleDeviceAdded\",\"data\":{\"pluginId\":\"p1\",\"adapterId\":\"a1\",\"id\":\"d1\",\"name\":\"Lamp\",\"type\":\"thing\",\"properties\":{\"on\":7},\"actions\":{}}}";
    assert!(PluginMessage::decode(text.as_bytes()).is_err());
    let text = "{\"messageType\":\"handleDeviceAdded\",\"data\":{\"pluginId\":\"p1\",\"adapterId\":\"a1\",\"id\":\"d1\",\"name\":\"Lamp\",\"type\":\"thing\",\"properties\":{},\"actions\":{\"blink\":{}}}}";
    assert!(PluginMessage::decode(text.as_bytes()).is_err());
}

#[test]
fn tags_name_the_wire_types() {
    let tags: Vec<&str> = all_commands().iter().map(|m| m.tag()).collect();
    assert_eq!(
        tags,
        vec![
            "unloadPlugin",
            "unloadAdapter",
            "setProperty",
            "requestAction",
            "startPairing",
            "cancelPairing",
            "removeThing",
            "cancelRemoveThing"
        ]
    );
    let tags: Vec<&str> = all_events().iter().map(|m| m.tag()).collect();
    assert_eq!(
        tags,
        vec![
            "pluginUnloaded",
            "adapterUnloaded",
            "addAdapter",
            "handleDeviceAdded",
            "handleDeviceRemoved",
            "propertyChanged"
        ]
    );
}

#[test]
fn plugin_id_is_read_from_every_command() {
    for m in all_commands() {
        assert_eq!(m.plugin_id(), "p1");
    }
}

#[test]
fn only_set_property_is_set_property() {
    let flags: Vec<bool> = all_commands().iter().map(|m| m.is_set_property()).collect();
    assert_eq!(flags, vec![false, false, true, false, false, false, false, false]);
}

#[test]
fn only_plugin_unloaded_ends_the_relay() {
    let flags: Vec<bool> = all_events().iter().map(|m| m.is_plugin_unloaded()).collect();
    assert_eq!(flags, vec![true, false, false, false, false, false]);
}

#[test]
fn clones_are_equal() {
    assert_eq!(on_description().clone(), on_description());
    let p = Property { name: s("on"), value: json("{\"a\":[1,2]}") };
    assert_eq!(p.clone(), p);
    let a = ActionDescription { name: s("blink") };
    assert_eq!(a.clone(), a);
}

#[test]
fn nested_values_survive_the_wire() {
    let m = GatewayMessage::SetProperty {
        plugin_id: s("p1"),
        adapter_id: s("a1"),
        device_id: s("d1"),
        property_name: s("colour"),
        property_value: json("{\"rgb\":[255,0,16],\"name\":\"r\\u00e9d\",\"on\":null}"),
    };
    assert_eq!(GatewayMessage::decode(m.encode().unwrap().as_bytes()).unwrap(), m);
}
