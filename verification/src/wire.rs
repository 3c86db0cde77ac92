//! The frame that every message travels in: a JSON object with the members
//! `messageType` and `data`.

use vstd::prelude::*;
use serde_json::Value;
use crate::error::{ErrorKind, GatewayError, GatewayErrorView};
use crate::json::{
    get_object, get_text, json_model, no_members, object_member, object_model, object_new,
    parse_json, parsed_json, put_object, put_text, render_json, rendered_json, text_member,
    value_as_object, value_from_object, Json, Members,
};

verus! {

/// The length and the first two characters of every member name and every
/// message type of the wire format. No two of them agree in all three.
pub proof fn lemma_wire_names()
    ensures
        "messageType"@.len() == 11 && "messageType"@[0] == 'm' && "messageType"@[1] == 'e',
        "data"@.len() == 4 && "data"@[0] == 'd' && "data"@[1] == 'a',
        "pluginId"@.len() == 8 && "pluginId"@[0] == 'p' && "pluginId"@[1] == 'l',
        "adapterId"@.len() == 9 && "adapterId"@[0] == 'a' && "adapterId"@[1] == 'd',
        "deviceId"@.len() == 8 && "deviceId"@[0] == 'd' && "deviceId"@[1] == 'e',
        "propertyName"@.len() == 12 && "propertyName"@[0] == 'p' && "propertyName"@[1] == 'r',
        "propertyValue"@.len() == 13 && "propertyValue"@[0] == 'p' && "propertyValue"@[1] == 'r',
        "actionId"@.len() == 8 && "actionId"@[0] == 'a' && "actionId"@[1] == 'c',
        "actionName"@.len() == 10 && "actionName"@[0] == 'a' && "actionName"@[1] == 'c',
        "input"@.len() == 5 && "input"@[0] == 'i' && "input"@[1] == 'n',
        "timeout"@.len() == 7 && "timeout"@[0] == 't' && "timeout"@[1] == 'i',
        "ipcBaseAddr"@.len() == 11 && "ipcBaseAddr"@[0] == 'i' && "ipcBaseAddr"@[1] == 'p',
        "name"@.len() == 4 && "name"@[0] == 'n' && "name"@[1] == 'a',
        "packageName"@.len() == 11 && "packageName"@[0] == 'p' && "packageName"@[1] == 'a',
        "id"@.len() == 2 && "id"@[0] == 'i' && "id"@[1] == 'd',
        "type"@.len() == 4 && "type"@[0] == 't' && "type"@[1] == 'y',
        "properties"@.len() == 10 && "properties"@[0] == 'p' && "properties"@[1] == 'r',
        "actions"@.len() == 7 && "actions"@[0] == 'a' && "actions"@[1] == 'c',
        "property"@.len() == 8 && "property"@[0] == 'p' && "property"@[1] == 'r',
        "value"@.len() == 5 && "value"@[0] == 'v' && "value"@[1] == 'a',
        "unit"@.len() == 4 && "unit"@[0] == 'u' && "unit"@[1] == 'n',
        "description"@.len() == 11 && "description"@[0] == 'd' && "description"@[1] == 'e',
        "min"@.len() == 3 && "min"@[0] == 'm' && "min"@[1] == 'i',
        "max"@.len() == 3 && "max"@[0] == 'm' && "max"@[1] == 'a',
        "visible"@.len() == 7 && "visible"@[0] == 'v' && "visible"@[1] == 'i',
        "registerPlugin"@.len() == 14 && "registerPlugin"@[0] == 'r' && "registerPlugin"@[1] == 'e',
        "registerPluginReply"@.len() == 19 && "registerPluginReply"@[0] == 'r' && "registerPluginReply"@[1] == 'e',
        "unloadPlugin"@.len() == 12 && "unloadPlugin"@[0] == 'u' && "unloadPlugin"@[1] == 'n',
        "unloadAdapter"@.len() == 13 && "unloadAdapter"@[0] == 'u' && "unloadAdapter"@[1] == 'n',
        "setProperty"@.len() == 11 && "setProperty"@[0] == 's' && "setProperty"@[1] == 'e',
        "requestAction"@.len() == 13 && "requestAction"@[0] == 'r' && "requestAction"@[1] == 'e',
        "startPairing"@.len() == 12 && "startPairing"@[0] == 's' && "startPairing"@[1] == 't',
        "cancelPairing"@.len() == 13 && "cancelPairing"@[0] == 'c' && "cancelPairing"@[1] == 'a',
        "removeThing"@.len() == 11 && "removeThing"@[0] == 'r' && "removeThing"@[1] == 'e',
        "cancelRemoveThing"@.len() == 17 && "cancelRemoveThing"@[0] == 'c' && "cancelRemoveThing"@[1] == 'a',
        "pluginUnloaded"@.len() == 14 && "pluginUnloaded"@[0] == 'p' && "pluginUnloaded"@[1] == 'l',
        "adapterUnloaded"@.len() == 15 && "adapterUnloaded"@[0] == 'a' && "adapterUnloaded"@[1] == 'd',
        "addAdapter"@.len() == 10 && "addAdapter"@[0] == 'a' && "addAdapter"@[1] == 'd',
        "handleDeviceAdded"@.len() == 17 && "handleDeviceAdded"@[0] == 'h' && "handleDeviceAdded"@[1] == 'a',
        "handleDeviceRemoved"@.len() == 19 && "handleDeviceRemoved"@[0] == 'h' && "handleDeviceRemoved"@[1] == 'a',
        "propertyChanged"@.len() == 15 && "propertyChanged"@[0] == 'p' && "propertyChanged"@[1] == 'r',
{
    reveal_strlit("messageType");
    reveal_strlit("data");
    reveal_strlit("pluginId");
    reveal_strlit("adapterId");
    reveal_strlit("deviceId");
    reveal_strlit("propertyName");
    reveal_strlit("propertyValue");
    reveal_strlit("actionId");
    reveal_strlit("actionName");
    reveal_strlit("input");
    reveal_strlit("timeout");
    reveal_strlit("ipcBaseAddr");
    reveal_strlit("name");
    reveal_strlit("packageName");
    reveal_strlit("id");
    reveal_strlit("type");
    reveal_strlit("properties");
    reveal_strlit("actions");
    reveal_strlit("property");
    reveal_strlit("value");
    reveal_strlit("unit");
    reveal_strlit("description");
    reveal_strlit("min");
    reveal_strlit("max");
    reveal_strlit("visible");
    reveal_strlit("registerPlugin");
    reveal_strlit("registerPluginReply");
    reveal_strlit("unloadPlugin");
    reveal_strlit("unloadAdapter");
    reveal_strlit("setProperty");
    reveal_strlit("requestAction");
    reveal_strlit("startPairing");
    reveal_strlit("cancelPairing");
    reveal_strlit("removeThing");
    reveal_strlit("cancelRemoveThing");
    reveal_strlit("pluginUnloaded");
    reveal_strlit("adapterUnloaded");
    reveal_strlit("addAdapter");
    reveal_strlit("handleDeviceAdded");
    reveal_strlit("handleDeviceRemoved");
    reveal_strlit("propertyChanged");
}

/// The document of a message of type `tag` with the payload `data`.
pub open spec fn envelope(tag: Seq<char>, data: Members) -> Json {
    Json::Object(
        no_members().insert("messageType"@, Json::Text(tag)).insert("data"@, Json::Object(data)),
    )
}

/// The message type that a document states, if it is an object that states
/// one.
pub open spec fn envelope_tag(doc: Json) -> Option<Seq<char>> {
    match doc {
        Json::Object(m) => text_member(m, "messageType"@),
        _ => None,
    }
}

/// The payload of a document, if it is an object that has one.
pub open spec fn envelope_data(doc: Json) -> Option<Members> {
    match doc {
        Json::Object(m) => object_member(m, "data"@),
        _ => None,
    }
}

/// An envelope opens to the type and the payload it was made of.
pub proof fn lemma_envelope_opens(tag: Seq<char>, data: Members)
    ensures
        envelope_tag(envelope(tag, data)) == Some(tag),
        envelope_data(envelope(tag, data)) == Some(data),
{
    lemma_wire_names();
}

/// The error for bytes that are not a message of the expected kind.
pub open spec fn malformed_message() -> GatewayErrorView {
    GatewayErrorView { kind: ErrorKind::Malformed, message: "malformed message"@ }
}

/// The error for a message that the JSON writer refuses.
pub open spec fn unwritable_message() -> GatewayErrorView {
    GatewayErrorView { kind: ErrorKind::Malformed, message: "message cannot be written"@ }
}

/// Wraps a payload as a message of type `tag`.
pub fn seal(tag: &str, data: serde_json::Map<String, Value>) -> (doc: Value)
    ensures
        json_model(doc) == envelope(tag@, object_model(data)),
{
    let mut m = object_new();
    put_text(&mut m, "messageType", tag);
    put_object(&mut m, "data", data);
    value_from_object(m)
}

/// Reads the type and the payload of a message.
pub fn unseal<'a>(doc: &'a Value) -> (r: Option<(String, &'a serde_json::Map<String, Value>)>)
    ensures
        match r {
            Some((tag, data)) => {
                &&& envelope_tag(json_model(*doc)) == Some(tag@)
                &&& envelope_data(json_model(*doc)) == Some(object_model(*data))
            },
            None => envelope_tag(json_model(*doc)) is None || envelope_data(json_model(*doc))
                is None,
        },
{
    match value_as_object(doc) {
        Some(m) => match get_text(m, "messageType") {
            Some(tag) => match get_object(m, "data") {
                Some(data) => Some((tag, data)),
                None => None,
            },
            None => None,
        },
        None => None,
    }
}

/// The text of a document, or the error where the writer refuses it.
pub fn write_document(doc: &Value) -> (r: Result<String, GatewayError>)
    ensures
        match rendered_json(json_model(*doc)) {
            Some(text) => r matches Ok(s) && s@ == text,
            None => r matches Err(e) && e@ == unwritable_message(),
        },
{
    match render_json(doc) {
        Some(text) => Ok(text),
        None => Err(GatewayError::malformed("message cannot be written")),
    }
}

/// The document that `bytes` spell, if they spell one.
pub fn read_document(bytes: &[u8]) -> (r: Option<Value>)
    ensures
        match r {
            Some(doc) => parsed_json(bytes@) == Some(json_model(doc)),
            None => parsed_json(bytes@) is None,
        },
{
    parse_json(bytes)
}

} // verus!
