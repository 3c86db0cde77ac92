//! The gateway's commands on the wire.

use vstd::prelude::*;
use serde_json::Value;
use crate::error::GatewayError;
use crate::json::{
    any_member, get_number, get_text, get_value, json_model, no_members, number_member,
    object_model, object_new, parsed_json, put_number, put_text, put_value, rendered_json, str_eq,
    text_member, Json, Members,
};
use crate::message::{GatewayMessage, GatewayMessageView};
use crate::wire::{
    envelope, envelope_data, envelope_tag, lemma_envelope_opens, lemma_wire_names,
    malformed_message, read_document, seal, unseal, unwritable_message, write_document,
};

verus! {

/// The message type of a command.
pub open spec fn command_tag(m: GatewayMessageView) -> Seq<char> {
    match m {
        GatewayMessageView::UnloadPlugin { .. } => "unloadPlugin"@,
        GatewayMessageView::UnloadAdapter { .. } => "unloadAdapter"@,
        GatewayMessageView::SetProperty { .. } => "setProperty"@,
        GatewayMessageView::RequestAction { .. } => "requestAction"@,
        GatewayMessageView::StartPairing { .. } => "startPairing"@,
        GatewayMessageView::CancelPairing { .. } => "cancelPairing"@,
        GatewayMessageView::RemoveThing { .. } => "removeThing"@,
        GatewayMessageView::CancelRemoveThing { .. } => "cancelRemoveThing"@,
    }
}

/// The payload of a command.
pub open spec fn command_data(m: GatewayMessageView) -> Members {
    match m {
        GatewayMessageView::UnloadPlugin { plugin_id } => no_members().insert(
            "pluginId"@,
            Json::Text(plugin_id),
        ),
        GatewayMessageView::UnloadAdapter { plugin_id, adapter_id } => no_members().insert(
            "pluginId"@,
            Json::Text(plugin_id),
        ).insert("adapterId"@, Json::Text(adapter_id)),
        GatewayMessageView::SetProperty {
            plugin_id,
            adapter_id,
            device_id,
            property_name,
            property_value,
        } => no_members().insert("pluginId"@, Json::Text(plugin_id)).insert(
            "adapterId"@,
            Json::Text(adapter_id),
        ).insert("deviceId"@, Json::Text(device_id)).insert(
            "propertyName"@,
            Json::Text(property_name),
        ).insert("propertyValue"@, property_value),
        GatewayMessageView::RequestAction {
            plugin_id,
            adapter_id,
            device_id,
            action_id,
            action_name,
            input,
        } => no_members().insert("pluginId"@, Json::Text(plugin_id)).insert(
            "adapterId"@,
            Json::Text(adapter_id),
        ).insert("deviceId"@, Json::Text(device_id)).insert(
            "actionId"@,
            Json::Number(action_id),
        ).insert("actionName"@, Json::Text(action_name)).insert("input"@, input),
        GatewayMessageView::StartPairing { plugin_id, adapter_id, timeout } => no_members().insert(
            "pluginId"@,
            Json::Text(plugin_id),
        ).insert("adapterId"@, Json::Text(adapter_id)).insert("timeout"@, Json::Number(timeout)),
        GatewayMessageView::CancelPairing { plugin_id, adapter_id } => no_members().insert(
            "pluginId"@,
            Json::Text(plugin_id),
        ).insert("adapterId"@, Json::Text(adapter_id)),
        GatewayMessageView::RemoveThing { plugin_id, adapter_id, device_id } => no_members().insert(
            "pluginId"@,
            Json::Text(plugin_id),
        ).insert("adapterId"@, Json::Text(adapter_id)).insert("deviceId"@, Json::Text(device_id)),
        GatewayMessageView::CancelRemoveThing { plugin_id, adapter_id, device_id } => no_members().insert(
            "pluginId"@,
            Json::Text(plugin_id),
        ).insert("adapterId"@, Json::Text(adapter_id)).insert("deviceId"@, Json::Text(device_id)),
    }
}

/// The document of a command.
pub open spec fn command_json(m: GatewayMessageView) -> Json {
    envelope(command_tag(m), command_data(m))
}

/// The command of type `tag` that the payload `d` holds, if `tag` is a
/// command type and `d` has every member of that type, each of the right
/// kind. Members that the type does not know are passed over.
pub open spec fn command_of(tag: Seq<char>, d: Members) -> Option<GatewayMessageView> {
    let plugin = text_member(d, "pluginId"@);
    let adapter = text_member(d, "adapterId"@);
    let device = text_member(d, "deviceId"@);
    if tag == "unloadPlugin"@ {
        match plugin {
            Some(plugin_id) => Some(GatewayMessageView::UnloadPlugin { plugin_id }),
            None => None,
        }
    } else if tag == "unloadAdapter"@ {
        match (plugin, adapter) {
            (Some(plugin_id), Some(adapter_id)) => Some(
                GatewayMessageView::UnloadAdapter { plugin_id, adapter_id },
            ),
            _ => None,
        }
    } else if tag == "setProperty"@ {
        match (
            plugin,
            adapter,
            device,
            text_member(d, "propertyName"@),
            any_member(d, "propertyValue"@),
        ) {
            (
                Some(plugin_id),
                Some(adapter_id),
                Some(device_id),
                Some(property_name),
                Some(property_value),
            ) => Some(
                GatewayMessageView::SetProperty {
                    plugin_id,
                    adapter_id,
                    device_id,
                    property_name,
                    property_value,
                },
            ),
            _ => None,
        }
    } else if tag == "requestAction"@ {
        match (
            plugin,
            adapter,
            device,
            number_member(d, "actionId"@),
            text_member(d, "actionName"@),
            any_member(d, "input"@),
        ) {
            (
                Some(plugin_id),
                Some(adapter_id),
                Some(device_id),
                Some(action_id),
                Some(action_name),
                Some(input),
            ) => Some(
                GatewayMessageView::RequestAction {
                    plugin_id,
                    adapter_id,
                    device_id,
                    action_id,
                    action_name,
                    input,
                },
            ),
            _ => None,
        }
    } else if tag == "startPairing"@ {
        match (plugin, adapter, number_member(d, "timeout"@)) {
            (Some(plugin_id), Some(adapter_id), Some(timeout)) => Some(
                GatewayMessageView::StartPairing { plugin_id, adapter_id, timeout },
            ),
            _ => None,
        }
    } else if tag == "cancelPairing"@ {
        match (plugin, adapter) {
            (Some(plugin_id), Some(adapter_id)) => Some(
                GatewayMessageView::CancelPairing { plugin_id, adapter_id },
            ),
            _ => None,
        }
    } else if tag == "removeThing"@ {
        match (plugin, adapter, device) {
            (Some(plugin_id), Some(adapter_id), Some(device_id)) => Some(
                GatewayMessageView::RemoveThing { plugin_id, adapter_id, device_id },
            ),
            _ => None,
        }
    } else if tag == "cancelRemoveThing"@ {
        match (plugin, adapter, device) {
            (Some(plugin_id), Some(adapter_id), Some(device_id)) => Some(
                GatewayMessageView::CancelRemoveThing { plugin_id, adapter_id, device_id },
            ),
            _ => None,
        }
    } else {
        None
    }
}

/// The command that a document holds, if it holds one.
pub open spec fn command_from(doc: Json) -> Option<GatewayMessageView> {
    match (envelope_tag(doc), envelope_data(doc)) {
        (Some(tag), Some(d)) => command_of(tag, d),
        _ => None,
    }
}

/// The command that bytes spell, if they spell one.
pub open spec fn decoded_command(bytes: Seq<u8>) -> Option<GatewayMessageView> {
    match parsed_json(bytes) {
        Some(doc) => command_from(doc),
        None => None,
    }
}

/// A command is read back from its document as it was, whatever its kind.
pub proof fn lemma_command_round_trip(m: GatewayMessageView)
    ensures
        command_from(command_json(m)) == Some(m),
{
    lemma_wire_names();
    lemma_envelope_opens(command_tag(m), command_data(m));
}

/// Reads the command of type `tag` from the payload `d`.
pub fn read_command(tag: &str, d: &serde_json::Map<String, Value>) -> (r: Option<GatewayMessage>)
    ensures
        match r {
            Some(m) => command_of(tag@, object_model(*d)) == Some(m@),
            None => command_of(tag@, object_model(*d)) is None,
        },
{
    let plugin = get_text(d, "pluginId");
    let adapter = get_text(d, "adapterId");
    let device = get_text(d, "deviceId");
    if str_eq(tag, "unloadPlugin") {
        match plugin {
            Some(plugin_id) => Some(GatewayMessage::UnloadPlugin { plugin_id }),
            None => None,
        }
    } else if str_eq(tag, "unloadAdapter") {
        match (plugin, adapter) {
            (Some(plugin_id), Some(adapter_id)) => Some(
                GatewayMessage::UnloadAdapter { plugin_id, adapter_id },
            ),
            _ => None,
        }
    } else if str_eq(tag, "setProperty") {
        match (plugin, adapter, device, get_text(d, "propertyName"), get_value(d, "propertyValue")) {
            (
                Some(plugin_id),
                Some(adapter_id),
                Some(device_id),
                Some(property_name),
                Some(property_value),
            ) => Some(
                GatewayMessage::SetProperty {
                    plugin_id,
                    adapter_id,
                    device_id,
                    property_name,
                    property_value,
                },
            ),
            _ => None,
        }
    } else if str_eq(tag, "requestAction") {
        match (
            plugin,
            adapter,
            device,
            get_number(d, "actionId"),
            get_text(d, "actionName"),
            get_value(d, "input"),
        ) {
            (
                Some(plugin_id),
                Some(adapter_id),
                Some(device_id),
                Some(action_id),
                Some(action_name),
                Some(input),
            ) => Some(
                GatewayMessage::RequestAction {
                    plugin_id,
                    adapter_id,
                    device_id,
                    action_id,
                    action_name,
                    input,
                },
            ),
            _ => None,
        }
    } else if str_eq(tag, "startPairing") {
        match (plugin, adapter, get_number(d, "timeout")) {
            (Some(plugin_id), Some(adapter_id), Some(timeout)) => Some(
                GatewayMessage::StartPairing { plugin_id, adapter_id, timeout },
            ),
            _ => None,
        }
    } else if str_eq(tag, "cancelPairing") {
        match (plugin, adapter) {
            (Some(plugin_id), Some(adapter_id)) => Some(
                GatewayMessage::CancelPairing { plugin_id, adapter_id },
            ),
            _ => None,
        }
    } else if str_eq(tag, "removeThing") {
        match (plugin, adapter, device) {
            (Some(plugin_id), Some(adapter_id), Some(device_id)) => Some(
                GatewayMessage::RemoveThing { plugin_id, adapter_id, device_id },
            ),
            _ => None,
        }
    } else if str_eq(tag, "cancelRemoveThing") {
        match (plugin, adapter, device) {
            (Some(plugin_id), Some(adapter_id), Some(device_id)) => Some(
                GatewayMessage::CancelRemoveThing { plugin_id, adapter_id, device_id },
            ),
            _ => None,
        }
    } else {
        None
    }
}

impl GatewayMessage {
    /// The message type of the command.
    pub fn tag(&self) -> (tag: &'static str)
        ensures
            tag@ == command_tag(self@),
    {
        match self {
            GatewayMessage::UnloadPlugin { .. } => "unloadPlugin",
            GatewayMessage::UnloadAdapter { .. } => "unloadAdapter",
            GatewayMessage::SetProperty { .. } => "setProperty",
            GatewayMessage::RequestAction { .. } => "requestAction",
            GatewayMessage::StartPairing { .. } => "startPairing",
            GatewayMessage::CancelPairing { .. } => "cancelPairing",
            GatewayMessage::RemoveThing { .. } => "removeThing",
            GatewayMessage::CancelRemoveThing { .. } => "cancelRemoveThing",
        }
    }

    /// The command as a JSON document.
    pub fn to_json(&self) -> (doc: Value)
        ensures
            json_model(doc) == command_json(self@),
    {
        let mut d = object_new();
        match self {
            GatewayMessage::UnloadPlugin { plugin_id } => {
                put_text(&mut d, "pluginId", plugin_id.as_str());
            },
            GatewayMessage::UnloadAdapter { plugin_id, adapter_id } => {
                put_text(&mut d, "pluginId", plugin_id.as_str());
                put_text(&mut d, "adapterId", adapter_id.as_str());
            },
            GatewayMessage::SetProperty {
                plugin_id,
                adapter_id,
                device_id,
                property_name,
                property_value,
            } => {
                put_text(&mut d, "pluginId", plugin_id.as_str());
                put_text(&mut d, "adapterId", adapter_id.as_str());
                put_text(&mut d, "deviceId", device_id.as_str());
                put_text(&mut d, "propertyName", property_name.as_str());
                put_value(&mut d, "propertyValue", property_value);
            },
            GatewayMessage::RequestAction {
                plugin_id,
                adapter_id,
                device_id,
                action_id,
                action_name,
                input,
            } => {
                put_text(&mut d, "pluginId", plugin_id.as_str());
                put_text(&mut d, "adapterId", adapter_id.as_str());
                put_text(&mut d, "deviceId", device_id.as_str());
                put_number(&mut d, "actionId", action_id);
                put_text(&mut d, "actionName", action_name.as_str());
                put_value(&mut d, "input", input);
            },
            GatewayMessage::StartPairing { plugin_id, adapter_id, timeout } => {
                put_text(&mut d, "pluginId", plugin_id.as_str());
                put_text(&mut d, "adapterId", adapter_id.as_str());
                put_number(&mut d, "timeout", timeout);
            },
            GatewayMessage::CancelPairing { plugin_id, adapter_id } => {
                put_text(&mut d, "pluginId", plugin_id.as_str());
                put_text(&mut d, "adapterId", adapter_id.as_str());
            },
            GatewayMessage::RemoveThing { plugin_id, adapter_id, device_id } => {
                put_text(&mut d, "pluginId", plugin_id.as_str());
                put_text(&mut d, "adapterId", adapter_id.as_str());
                put_text(&mut d, "deviceId", device_id.as_str());
            },
            GatewayMessage::CancelRemoveThing { plugin_id, adapter_id, device_id } => {
                put_text(&mut d, "pluginId", plugin_id.as_str());
                put_text(&mut d, "adapterId", adapter_id.as_str());
                put_text(&mut d, "deviceId", device_id.as_str());
            },
        }
        seal(self.tag(), d)
    }

    /// The command that a JSON document holds, or `None` where the document
    /// is no command.
    pub fn from_json(doc: &Value) -> (r: Option<GatewayMessage>)
        ensures
            match r {
                Some(m) => command_from(json_model(*doc)) == Some(m@),
                None => command_from(json_model(*doc)) is None,
            },
    {
        match unseal(doc) {
            Some((tag, d)) => read_command(tag.as_str(), d),
            None => None,
        }
    }

    /// The command as compact JSON text.
    pub fn encode(&self) -> (r: Result<String, GatewayError>)
        ensures
            match rendered_json(command_json(self@)) {
                Some(text) => r matches Ok(s) && s@ == text,
                None => r matches Err(e) && e@ == unwritable_message(),
            },
    {
        write_document(&self.to_json())
    }

    /// The command that `bytes` spell, or `Malformed` where they spell none.
    pub fn decode(bytes: &[u8]) -> (r: Result<GatewayMessage, GatewayError>)
        ensures
            match decoded_command(bytes@) {
                Some(m) => r matches Ok(got) && got@ == m,
                None => r matches Err(e) && e@ == malformed_message(),
            },
    {
        match read_document(bytes) {
            Some(doc) => match GatewayMessage::from_json(&doc) {
                Some(m) => Ok(m),
                None => Err(GatewayError::malformed("malformed message")),
            },
            None => Err(GatewayError::malformed("malformed message")),
        }
    }
}

} // verus!
