//! The plugin's events on the wire.

use vstd::prelude::*;
use serde_json::Value;
use crate::error::GatewayError;
use crate::json::{
    get_object, get_text, json_model, no_members, object_member, object_model, object_new,
    parsed_json, put_object, put_text, rendered_json, str_eq, text_member, Json, Members,
};
use crate::message::{
    ActionDescription, PluginMessage, PluginMessageView, Property, PropertyDescription,
};
use crate::record::{
    lemma_table_round_trip, read_table, table_members, table_of, write_table, Record,
};
use crate::wire::{
    envelope, envelope_data, envelope_tag, lemma_envelope_opens, lemma_wire_names,
    malformed_message, read_document, seal, unseal, unwritable_message, write_document,
};

verus! {

/// The message type of an event.
pub open spec fn event_tag(m: PluginMessageView) -> Seq<char> {
    match m {
        PluginMessageView::PluginUnloaded { .. } => "pluginUnloaded"@,
        PluginMessageView::AdapterUnloaded { .. } => "adapterUnloaded"@,
        PluginMessageView::AddAdapter { .. } => "addAdapter"@,
        PluginMessageView::HandleDeviceAdded { .. } => "handleDeviceAdded"@,
        PluginMessageView::HandleDeviceRemoved { .. } => "handleDeviceRemoved"@,
        PluginMessageView::PropertyChanged { .. } => "propertyChanged"@,
    }
}

/// The payload of an event.
pub open spec fn event_data(m: PluginMessageView) -> Members {
    match m {
        PluginMessageView::PluginUnloaded { plugin_id } => no_members().insert(
            "pluginId"@,
            Json::Text(plugin_id),
        ),
        PluginMessageView::AdapterUnloaded { plugin_id, adapter_id } => no_members().insert(
            "pluginId"@,
            Json::Text(plugin_id),
        ).insert("adapterId"@, Json::Text(adapter_id)),
        PluginMessageView::AddAdapter { plugin_id, adapter_id, name, package_name } => no_members().insert(
            "pluginId"@,
            Json::Text(plugin_id),
        ).insert("adapterId"@, Json::Text(adapter_id)).insert("name"@, Json::Text(name)).insert(
            "packageName"@,
            Json::Text(package_name),
        ),
        PluginMessageView::HandleDeviceAdded {
            plugin_id,
            adapter_id,
            id,
            name,
            typ,
            properties,
            actions,
        } => no_members().insert("pluginId"@, Json::Text(plugin_id)).insert(
            "adapterId"@,
            Json::Text(adapter_id),
        ).insert("id"@, Json::Text(id)).insert("name"@, Json::Text(name)).insert(
            "type"@,
            Json::Text(typ),
        ).insert(
            "properties"@,
            Json::Object(table_members::<PropertyDescription>(properties)),
        ).insert("actions"@, Json::Object(table_members::<ActionDescription>(actions))),
        PluginMessageView::HandleDeviceRemoved { plugin_id, adapter_id, id } => no_members().insert(
            "pluginId"@,
            Json::Text(plugin_id),
        ).insert("adapterId"@, Json::Text(adapter_id)).insert("id"@, Json::Text(id)),
        PluginMessageView::PropertyChanged { plugin_id, adapter_id, device_id, property } => no_members().insert(
            "pluginId"@,
            Json::Text(plugin_id),
        ).insert("adapterId"@, Json::Text(adapter_id)).insert(
            "deviceId"@,
            Json::Text(device_id),
        ).insert("property"@, Json::Object(Property::members(property))),
    }
}

/// The document of an event.
pub open spec fn event_json(m: PluginMessageView) -> Json {
    envelope(event_tag(m), event_data(m))
}

/// The records that the object member `key` holds by name, if it is there
/// and every one of its members holds a record.
pub open spec fn table_member<T: Record>(d: Members, key: Seq<char>) -> Option<
    Map<Seq<char>, T::V>,
> {
    match object_member(d, key) {
        Some(m) => table_of::<T>(m),
        None => None,
    }
}

/// The record that the object member `key` holds, if it is there and holds
/// one.
pub open spec fn record_member<T: Record>(d: Members, key: Seq<char>) -> Option<T::V> {
    match object_member(d, key) {
        Some(m) => T::record(m),
        None => None,
    }
}

/// The event of type `tag` that the payload `d` holds, if `tag` is an event
/// type and `d` has every member of that type, each of the right kind.
/// Members that the type does not know are passed over.
pub open spec fn event_of(tag: Seq<char>, d: Members) -> Option<PluginMessageView> {
    let plugin = text_member(d, "pluginId"@);
    let adapter = text_member(d, "adapterId"@);
    if tag == "pluginUnloaded"@ {
        match plugin {
            Some(plugin_id) => Some(PluginMessageView::PluginUnloaded { plugin_id }),
            None => None,
        }
    } else if tag == "adapterUnloaded"@ {
        match (plugin, adapter) {
            (Some(plugin_id), Some(adapter_id)) => Some(
                PluginMessageView::AdapterUnloaded { plugin_id, adapter_id },
            ),
            _ => None,
        }
    } else if tag == "addAdapter"@ {
        match (plugin, adapter, text_member(d, "name"@), text_member(d, "packageName"@)) {
            (Some(plugin_id), Some(adapter_id), Some(name), Some(package_name)) => Some(
                PluginMessageView::AddAdapter { plugin_id, adapter_id, name, package_name },
            ),
            _ => None,
        }
    } else if tag == "handleDeviceAdded"@ {
        match (
            plugin,
            adapter,
            text_member(d, "id"@),
            text_member(d, "name"@),
            text_member(d, "type"@),
            table_member::<PropertyDescription>(d, "properties"@),
            table_member::<ActionDescription>(d, "actions"@),
        ) {
            (
                Some(plugin_id),
                Some(adapter_id),
                Some(id),
                Some(name),
                Some(typ),
                Some(properties),
                Some(actions),
            ) => Some(
                PluginMessageView::HandleDeviceAdded {
                    plugin_id,
                    adapter_id,
                    id,
                    name,
                    typ,
                    properties,
                    actions,
                },
            ),
            _ => None,
        }
    } else if tag == "handleDeviceRemoved"@ {
        match (plugin, adapter, text_member(d, "id"@)) {
            (Some(plugin_id), Some(adapter_id), Some(id)) => Some(
                PluginMessageView::HandleDeviceRemoved { plugin_id, adapter_id, id },
            ),
            _ => None,
        }
    } else if tag == "propertyChanged"@ {
        match (
            plugin,
            adapter,
            text_member(d, "deviceId"@),
            record_member::<Property>(d, "property"@),
        ) {
            (Some(plugin_id), Some(adapter_id), Some(device_id), Some(property)) => Some(
                PluginMessageView::PropertyChanged { plugin_id, adapter_id, device_id, property },
            ),
            _ => None,
        }
    } else {
        None
    }
}

/// The event that a document holds, if it holds one.
pub open spec fn event_from(doc: Json) -> Option<PluginMessageView> {
    match (envelope_tag(doc), envelope_data(doc)) {
        (Some(tag), Some(d)) => event_of(tag, d),
        _ => None,
    }
}

/// The event that bytes spell, if they spell one.
pub open spec fn decoded_event(bytes: Seq<u8>) -> Option<PluginMessageView> {
    match parsed_json(bytes) {
        Some(doc) => event_from(doc),
        None => None,
    }
}

/// An event is read back from its document as it was, whatever its kind.
pub proof fn lemma_event_round_trip(m: PluginMessageView)
    ensures
        event_from(event_json(m)) == Some(m),
{
    lemma_wire_names();
    lemma_envelope_opens(event_tag(m), event_data(m));
    match m {
        PluginMessageView::HandleDeviceAdded { properties, actions, .. } => {
            lemma_table_round_trip::<PropertyDescription>(properties);
            lemma_table_round_trip::<ActionDescription>(actions);
        },
        PluginMessageView::PropertyChanged { property, .. } => {
            Property::lemma_round_trip(property);
        },
        _ => {},
    }
}

/// Reads the records that the object member `key` holds by name.
pub fn get_table<T: Record>(d: &serde_json::Map<String, Value>, key: &str) -> (r: Option<
    crate::registry::Registry<T>,
>)
    ensures
        match r {
            Some(registry) => table_member::<T>(object_model(*d), key@) == Some(
                crate::registry::view_map(registry),
            ),
            None => table_member::<T>(object_model(*d), key@) is None,
        },
{
    match get_object(d, key) {
        Some(m) => read_table::<T>(m),
        None => None,
    }
}

/// Reads the record that the object member `key` holds.
pub fn get_record<T: Record>(d: &serde_json::Map<String, Value>, key: &str) -> (r: Option<T>)
    ensures
        match r {
            Some(rec) => record_member::<T>(object_model(*d), key@) == Some(rec@),
            None => record_member::<T>(object_model(*d), key@) is None,
        },
{
    match get_object(d, key) {
        Some(m) => T::from_members(m),
        None => None,
    }
}

/// Reads the event of type `tag` from the payload `d`.
pub fn read_event(tag: &str, d: &serde_json::Map<String, Value>) -> (r: Option<PluginMessage>)
    ensures
        match r {
            Some(m) => event_of(tag@, object_model(*d)) == Some(m@),
            None => event_of(tag@, object_model(*d)) is None,
        },
{
    let plugin = get_text(d, "pluginId");
    let adapter = get_text(d, "adapterId");
    if str_eq(tag, "pluginUnloaded") {
        match plugin {
            Some(plugin_id) => Some(PluginMessage::PluginUnloaded { plugin_id }),
            None => None,
        }
    } else if str_eq(tag, "adapterUnloaded") {
        match (plugin, adapter) {
            (Some(plugin_id), Some(adapter_id)) => Some(
                PluginMessage::AdapterUnloaded { plugin_id, adapter_id },
            ),
            _ => None,
        }
    } else if str_eq(tag, "addAdapter") {
        match (plugin, adapter, get_text(d, "name"), get_text(d, "packageName")) {
            (Some(plugin_id), Some(adapter_id), Some(name), Some(package_name)) => Some(
                PluginMessage::AddAdapter { plugin_id, adapter_id, name, package_name },
            ),
            _ => None,
        }
    } else if str_eq(tag, "handleDeviceAdded") {
        match (
            plugin,
            adapter,
            get_text(d, "id"),
            get_text(d, "name"),
            get_text(d, "type"),
            get_table::<PropertyDescription>(d, "properties"),
            get_table::<ActionDescription>(d, "actions"),
        ) {
            (
                Some(plugin_id),
                Some(adapter_id),
                Some(id),
                Some(name),
                Some(typ),
                Some(properties),
                Some(actions),
            ) => Some(
                PluginMessage::HandleDeviceAdded {
                    plugin_id,
                    adapter_id,
                    id,
                    name,
                    typ,
                    properties,
                    actions,
                },
            ),
            _ => None,
        }
    } else if str_eq(tag, "handleDeviceRemoved") {
        match (plugin, adapter, get_text(d, "id")) {
            (Some(plugin_id), Some(adapter_id), Some(id)) => Some(
                PluginMessage::HandleDeviceRemoved { plugin_id, adapter_id, id },
            ),
            _ => None,
        }
    } else if str_eq(tag, "propertyChanged") {
        match (plugin, adapter, get_text(d, "deviceId"), get_record::<Property>(d, "property")) {
            (Some(plugin_id), Some(adapter_id), Some(device_id), Some(property)) => Some(
                PluginMessage::PropertyChanged { plugin_id, adapter_id, device_id, property },
            ),
            _ => None,
        }
    } else {
        None
    }
}

impl PluginMessage {
    /// The message type of the event.
    pub fn tag(&self) -> (tag: &'static str)
        ensures
            tag@ == event_tag(self@),
    {
        match self {
            PluginMessage::PluginUnloaded { .. } => "pluginUnloaded",
            PluginMessage::AdapterUnloaded { .. } => "adapterUnloaded",
            PluginMessage::AddAdapter { .. } => "addAdapter",
            PluginMessage::HandleDeviceAdded { .. } => "handleDeviceAdded",
            PluginMessage::HandleDeviceRemoved { .. } => "handleDeviceRemoved",
            PluginMessage::PropertyChanged { .. } => "propertyChanged",
        }
    }

    /// The event as a JSON document.
    pub fn to_json(&self) -> (doc: Value)
        ensures
            json_model(doc) == event_json(self@),
    {
        let mut d = object_new();
        match self {
            PluginMessage::PluginUnloaded { plugin_id } => {
                put_text(&mut d, "pluginId", plugin_id.as_str());
            },
            PluginMessage::AdapterUnloaded { plugin_id, adapter_id } => {
                put_text(&mut d, "pluginId", plugin_id.as_str());
                put_text(&mut d, "adapterId", adapter_id.as_str());
            },
            PluginMessage::AddAdapter { plugin_id, adapter_id, name, package_name } => {
                put_text(&mut d, "pluginId", plugin_id.as_str());
                put_text(&mut d, "adapterId", adapter_id.as_str());
                put_text(&mut d, "name", name.as_str());
                put_text(&mut d, "packageName", package_name.as_str());
            },
            PluginMessage::HandleDeviceAdded {
                plugin_id,
                adapter_id,
                id,
                name,
                typ,
                properties,
                actions,
            } => {
                put_text(&mut d, "pluginId", plugin_id.as_str());
                put_text(&mut d, "adapterId", adapter_id.as_str());
                put_text(&mut d, "id", id.as_str());
                put_text(&mut d, "name", name.as_str());
                put_text(&mut d, "type", typ.as_str());
                put_object(&mut d, "properties", write_table(properties));
                put_object(&mut d, "actions", write_table(actions));
            },
            PluginMessage::HandleDeviceRemoved { plugin_id, adapter_id, id } => {
                put_text(&mut d, "pluginId", plugin_id.as_str());
                put_text(&mut d, "adapterId", adapter_id.as_str());
                put_text(&mut d, "id", id.as_str());
            },
            PluginMessage::PropertyChanged { plugin_id, adapter_id, device_id, property } => {
                put_text(&mut d, "pluginId", plugin_id.as_str());
                put_text(&mut d, "adapterId", adapter_id.as_str());
                put_text(&mut d, "deviceId", device_id.as_str());
                put_object(&mut d, "property", property.to_members());
            },
        }
        seal(self.tag(), d)
    }

    /// The event that a JSON document holds, or `None` where the document is
    /// no event.
    pub fn from_json(doc: &Value) -> (r: Option<PluginMessage>)
        ensures
            match r {
                Some(m) => event_from(json_model(*doc)) == Some(m@),
                None => event_from(json_model(*doc)) is None,
            },
    {
        match unseal(doc) {
            Some((tag, d)) => read_event(tag.as_str(), d),
            None => None,
        }
    }

    /// The event as compact JSON text.
    pub fn encode(&self) -> (r: Result<String, GatewayError>)
        ensures
            match rendered_json(event_json(self@)) {
                Some(text) => r matches Ok(s) && s@ == text,
                None => r matches Err(e) && e@ == unwritable_message(),
            },
    {
        write_document(&self.to_json())
    }

    /// The event that `bytes` spell, or `Malformed` where they spell none.
    pub fn decode(bytes: &[u8]) -> (r: Result<PluginMessage, GatewayError>)
        ensures
            match decoded_event(bytes@) {
                Some(m) => r matches Ok(got) && got@ == m,
                None => r matches Err(e) && e@ == malformed_message(),
            },
    {
        match read_document(bytes) {
            Some(doc) => match PluginMessage::from_json(&doc) {
                Some(m) => Ok(m),
                None => Err(GatewayError::malformed("malformed message")),
            },
            None => Err(GatewayError::malformed("malformed message")),
        }
    }
}

} // verus!
