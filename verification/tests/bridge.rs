use gateway_addon::{
    endpoint, BridgeAction, BridgeEvent, BridgeState, ErrorKind, GatewayBridge, GatewayMessage,
    PluginMessage, Property,
};
use serde_json::Value;

fn s(text: &str) -> String {
    text.to_string()
}

fn reply(plugin_id: &str, address: &str) -> Vec<u8> {
    format!(
        "{{\"messageType\":\"registerPluginReply\",\"data\":{{\"pluginId\":\"{}\",\"ipcBaseAddr\":\"{}\"}}}}",
        plugin_id, address
    )
    .into_bytes()
}

fn relaying() -> GatewayBridge {
    let mut b = GatewayBridge::new("mqtt-adapter");
    b.step(BridgeEvent::Start);
    b.step(BridgeEvent::Reply(reply("mqtt-adapter", "gateway.plugin.mqtt-adapter")));
    b.step(BridgeEvent::Connected);
    assert_eq!(b.state(), BridgeState::Relaying);
    b
}

fn all_events() -> Vec<BridgeEvent> {
    vec![
        BridgeEvent::Start,
        BridgeEvent::Reply(reply("mqtt-adapter", "x")),
        BridgeEvent::Connected,
        BridgeEvent::Inbound(b"{}".to_vec()),
        BridgeEvent::Outbound(PluginMessage::AdapterUnloaded { plugin_id: s("p"), adapter_id: s("a") }),
        BridgeEvent::Quiet,
        BridgeEvent::WriteFailed,
        BridgeEvent::Closed,
    ]
}

#[test]
fn new_bridge_is_disconnected() {
    let b = GatewayBridge::new("mqtt-adapter");
    assert_eq!(b.state(), BridgeState::Disconnected);
    assert_eq!(b.plugin_id(), "mqtt-adapter");
    assert_eq!(b.base(), "ipc:///tmp");
    assert!(!b.is_closed());
    let b = GatewayBridge::with_base("p1", "inproc://test");
    assert_eq!(b.base(), "inproc://test");
    assert_eq!(b.plugin_id(), "p1");
}

#[test]
fn endpoint_joins_with_a_slash() {
    assert_eq!(endpoint("ipc:///tmp", "gateway.addonManager"), "ipc:///tmp/gateway.addonManager");
    assert_eq!(endpoint("", ""), "/");
}

#[test]
fn start_sends_the_registration() {
    let mut b = GatewayBridge::new("mqtt-adapter");
    let action = b.step(BridgeEvent::Start);
    assert_eq!(
        action,
        BridgeAction::Register {
            endpoint: s("ipc:///tmp/gateway.addonManager"),
            request: s("{\"data\":{\"pluginId\":\"mqtt-adapter\"},\"messageType\":\"registerPlugin\"}"),
        }
    );
    assert_eq!(b.state(), BridgeState::Registering);
}

#[test]
fn matching_reply_pairs_the_bridge() {
    let mut b = GatewayBridge::new("mqtt-adapter");
    b.step(BridgeEvent::Start);
    let action = b.step(BridgeEvent::Reply(reply("mqtt-adapter", "gateway.plugin.mqtt-adapter")));
    assert_eq!(action, BridgeAction::Connect { address: s("ipc:///tmp/gateway.plugin.mqtt-adapter") });
    assert_eq!(b.state(), BridgeState::Paired);
    assert_eq!(b.step(BridgeEvent::Connected), BridgeAction::Wait);
    assert_eq!(b.state(), BridgeState::Relaying);
}

#[test]
fn pair_address_is_under_the_given_base() {
    let mut b = GatewayBridge::with_base("p1", "inproc://gw");
    match b.step(BridgeEvent::Start) {
        BridgeAction::Register { endpoint, .. } => assert_eq!(endpoint, "inproc://gw/gateway.addonManager"),
        other => panic!("unexpected action {:?}", other),
    }
    assert_eq!(
        b.step(BridgeEvent::Reply(reply("p1", "pair.7"))),
        BridgeAction::Connect { address: s("inproc://gw/pair.7") }
    );
}

#[test]
fn mismatched_reply_ends_the_bridge() {
    let mut b = GatewayBridge::new("mqtt-adapter");
    b.step(BridgeEvent::Start);
    match b.step(BridgeEvent::Reply(reply("someone-else", "gateway.plugin.x"))) {
        BridgeAction::Fail(e) => {
            assert_eq!(e.kind, ErrorKind::ProtocolMismatch);
            assert_eq!(e.message, "mismatched plugin id on channel");
        }
        other => panic!("unexpected action {:?}", other),
    }
    assert_eq!(b.state(), BridgeState::Closed);
    assert!(b.is_closed());
    assert_eq!(b.step(BridgeEvent::Connected), BridgeAction::Ignore);
    assert_eq!(b.state(), BridgeState::Closed);
}

#[test]
fn malformed_reply_ends_the_bridge() {
    let mut b = GatewayBridge::new("mqtt-adapter");
    b.step(BridgeEvent::Start);
    match b.step(BridgeEvent::Reply(b"{\"messageType\":\"registerPluginReply\"".to_vec())) {
        BridgeAction::Fail(e) => assert_eq!(e.kind, ErrorKind::Malformed),
        other => panic!("unexpected action {:?}", other),
    }
    assert!(b.is_closed());
}

#[test]
fn inbound_commands_are_forwarded() {
    let mut b = relaying();
    let bytes = b"{\"messageType\":\"cancelPairing\",\"data\":{\"pluginId\":\"p1\",\"adapterId\":\"a1\"}}".to_vec();
    assert_eq!(
        b.step(BridgeEvent::Inbound(bytes)),
        BridgeAction::Forward(GatewayMessage::CancelPairing { plugin_id: s("p1"), adapter_id: s("a1") })
    );
    assert_eq!(b.state(), BridgeState::Relaying);
}

#[test]
fn malformed_inbound_bytes_are_discarded() {
    let mut b = relaying();
    assert_eq!(b.step(BridgeEvent::Inbound(b"garbage".to_vec())), BridgeAction::Discard);
    assert_eq!(b.step(BridgeEvent::Inbound(b"{\"messageType\":\"nope\",\"data\":{}}".to_vec())), BridgeAction::Discard);
    assert_eq!(b.step(BridgeEvent::Inbound(Vec::new())), BridgeAction::Discard);
    assert_eq!(b.state(), BridgeState::Relaying);
}

#[test]
fn outbound_events_are_written() {
    let mut b = relaying();
    let event = PluginMessage::PropertyChanged {
        plugin_id: s("p1"),
        adapter_id: s("a1"),
        device_id: s("d1"),
        property: Property { name: s("on"), value: Value::Bool(true) },
    };
    assert_eq!(b.step(BridgeEvent::Outbound(event.clone())), BridgeAction::Write(event.encode().unwrap()));
    assert_eq!(b.state(), BridgeState::Relaying);
}

#[test]
fn quiet_turns_wait() {
    let mut b = relaying();
    assert_eq!(b.step(BridgeEvent::Quiet), BridgeAction::Wait);
    assert_eq!(b.state(), BridgeState::Relaying);
}

#[test]
fn plugin_unloaded_shuts_the_relay_down() {
    let mut b = relaying();
    let last = PluginMessage::PluginUnloaded { plugin_id: s("mqtt-adapter") };
    assert_eq!(
        b.step(BridgeEvent::Outbound(last)),
        BridgeAction::WriteAndClose(s("{\"data\":{\"pluginId\":\"mqtt-adapter\"},\"messageType\":\"pluginUnloaded\"}"))
    );
    assert_eq!(b.state(), BridgeState::ShuttingDown);
    let later = PluginMessage::AdapterUnloaded { plugin_id: s("mqtt-adapter"), adapter_id: s("a1") };
    assert_eq!(b.step(BridgeEvent::Outbound(later.clone())), BridgeAction::Ignore);
    assert_eq!(b.state(), BridgeState::ShuttingDown);
    assert_eq!(b.step(BridgeEvent::Inbound(b"{}".to_vec())), BridgeAction::Ignore);
    assert_eq!(b.step(BridgeEvent::Closed), BridgeAction::Stop);
    assert_eq!(b.state(), BridgeState::Closed);
    assert_eq!(b.step(BridgeEvent::Outbound(later)), BridgeAction::Ignore);
    assert!(b.is_closed());
}

#[test]
fn failed_write_is_fatal() {
    let mut b = relaying();
    match b.step(BridgeEvent::WriteFailed) {
        BridgeAction::Fail(e) => {
            assert_eq!(e.kind, ErrorKind::Transport);
            assert_eq!(e.message, "cannot write to the gateway");
        }
        other => panic!("unexpected action {:?}", other),
    }
    assert!(b.is_closed());
    let mut b = relaying();
    b.step(BridgeEvent::Outbound(PluginMessage::PluginUnloaded { plugin_id: s("p") }));
    assert!(matches!(b.step(BridgeEvent::WriteFailed), BridgeAction::Fail(_)));
    assert!(b.is_closed());
}

#[test]
fn events_out_of_place_are_ignored() {
    let accepted = [
        (BridgeState::Disconnected, vec![0]),
        (BridgeState::Registering, vec![1]),
        (BridgeState::Paired, vec![2]),
        (BridgeState::Relaying, vec![3, 4, 5, 6]),
    ];
    for (state, taken) in accepted.iter() {
        for (i, event) in all_events().into_iter().enumerate() {
            let mut b = GatewayBridge::new("mqtt-adapter");
            if *state != BridgeState::Disconnected {
                b.step(BridgeEvent::Start);
            }
            if *state == BridgeState::Paired || *state == BridgeState::Relaying {
                b.step(BridgeEvent::Reply(reply("mqtt-adapter", "x")));
            }
            if *state == BridgeState::Relaying {
                b.step(BridgeEvent::Connected);
            }
            assert_eq!(b.state(), *state);
            let action = b.step(event);
            if taken.contains(&i) {
                assert_ne!(action, BridgeAction::Ignore);
            } else {
                assert_eq!(action, BridgeAction::Ignore);
                assert_eq!(b.state(), *state);
            }
        }
    }
}
