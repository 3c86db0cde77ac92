//! The two messages of the registration handshake on the wire.

use vstd::prelude::*;
use serde_json::Value;
use crate::error::GatewayError;
use crate::json::{
    get_text, json_model, no_members, object_new, parsed_json, put_text, rendered_json, text_member,
    Json,
};
use crate::message::{
    GatewayRegisterMessage, GatewayRegisterMessageView, PluginRegisterMessage,
    PluginRegisterMessageView,
};
use crate::wire::{
    envelope, envelope_data, envelope_tag, lemma_envelope_opens, lemma_wire_names,
    malformed_message, read_document, seal, unseal, unwritable_message, write_document,
};

verus! {

/// The document of a registration request.
pub open spec fn register_request_json(m: PluginRegisterMessageView) -> Json {
    match m {
        PluginRegisterMessageView::RegisterPlugin { plugin_id } => envelope(
            "registerPlugin"@,
            no_members().insert("pluginId"@, Json::Text(plugin_id)),
        ),
    }
}

/// The registration request that a document holds, if it holds one.
pub open spec fn register_request_from(doc: Json) -> Option<PluginRegisterMessageView> {
    match (envelope_tag(doc), envelope_data(doc)) {
        (Some(tag), Some(d)) => if tag == "registerPlugin"@ {
            match text_member(d, "pluginId"@) {
                Some(plugin_id) => Some(PluginRegisterMessageView::RegisterPlugin { plugin_id }),
                None => None,
            }
        } else {
            None
        },
        _ => None,
    }
}

/// The document of a registration reply.
pub open spec fn register_reply_json(m: GatewayRegisterMessageView) -> Json {
    match m {
        GatewayRegisterMessageView::RegisterPluginReply { plugin_id, ipc_base_addr } => envelope(
            "registerPluginReply"@,
            no_members().insert("pluginId"@, Json::Text(plugin_id)).insert(
                "ipcBaseAddr"@,
                Json::Text(ipc_base_addr),
            ),
        ),
    }
}

/// The registration reply that a document holds, if it holds one.
pub open spec fn register_reply_from(doc: Json) -> Option<GatewayRegisterMessageView> {
    match (envelope_tag(doc), envelope_data(doc)) {
        (Some(tag), Some(d)) => if tag == "registerPluginReply"@ {
            match (text_member(d, "pluginId"@), text_member(d, "ipcBaseAddr"@)) {
                (Some(plugin_id), Some(ipc_base_addr)) => Some(
                    GatewayRegisterMessageView::RegisterPluginReply { plugin_id, ipc_base_addr },
                ),
                _ => None,
            }
        } else {
            None
        },
        _ => None,
    }
}

/// The registration request that bytes spell, if they spell one.
pub open spec fn decoded_register_request(bytes: Seq<u8>) -> Option<PluginRegisterMessageView> {
    match parsed_json(bytes) {
        Some(doc) => register_request_from(doc),
        None => None,
    }
}

/// The registration reply that bytes spell, if they spell one.
pub open spec fn decoded_register_reply(bytes: Seq<u8>) -> Option<GatewayRegisterMessageView> {
    match parsed_json(bytes) {
        Some(doc) => register_reply_from(doc),
        None => None,
    }
}

/// A registration request is read back from its document as it was.
pub proof fn lemma_register_request_round_trip(m: PluginRegisterMessageView)
    ensures
        register_request_from(register_request_json(m)) == Some(m),
{
    lemma_wire_names();
    match m {
        PluginRegisterMessageView::RegisterPlugin { plugin_id } => {
            lemma_envelope_opens(
                "registerPlugin"@,
                no_members().insert("pluginId"@, Json::Text(plugin_id)),
            );
        },
    }
}

/// A registration reply is read back from its document as it was.
pub proof fn lemma_register_reply_round_trip(m: GatewayRegisterMessageView)
    ensures
        register_reply_from(register_reply_json(m)) == Some(m),
{
    lemma_wire_names();
    match m {
        GatewayRegisterMessageView::RegisterPluginReply { plugin_id, ipc_base_addr } => {
            lemma_envelope_opens(
                "registerPluginReply"@,
                no_members().insert("pluginId"@, Json::Text(plugin_id)).insert(
                    "ipcBaseAddr"@,
                    Json::Text(ipc_base_addr),
                ),
            );
        },
    }
}

impl PluginRegisterMessage {
    /// The message as a JSON document.
    pub fn to_json(&self) -> (doc: Value)
        ensures
            json_model(doc) == register_request_json(self@),
    {
        match self {
            PluginRegisterMessage::RegisterPlugin { plugin_id } => {
                let mut d = object_new();
                put_text(&mut d, "pluginId", plugin_id.as_str());
                seal("registerPlugin", d)
            },
        }
    }

    /// The message that a JSON document holds, or `None` where the document
    /// is no registration request.
    pub fn from_json(doc: &Value) -> (r: Option<PluginRegisterMessage>)
        ensures
            match r {
                Some(m) => register_request_from(json_model(*doc)) == Some(m@),
                None => register_request_from(json_model(*doc)) is None,
            },
    {
        match unseal(doc) {
            Some((tag, d)) => {
                if crate::json::str_eq(tag.as_str(), "registerPlugin") {
                    match get_text(d, "pluginId") {
                        Some(plugin_id) => Some(PluginRegisterMessage::RegisterPlugin { plugin_id }),
                        None => None,
                    }
                } else {
                    None
                }
            },
            None => None,
        }
    }

    /// The message as compact JSON text.
    pub fn encode(&self) -> (r: Result<String, GatewayError>)
        ensures
            match rendered_json(register_request_json(self@)) {
                Some(text) => r matches Ok(s) && s@ == text,
                None => r matches Err(e) && e@ == unwritable_message(),
            },
    {
        write_document(&self.to_json())
    }

    /// The message that `bytes` spell, or `Malformed` where they spell none.
    pub fn decode(bytes: &[u8]) -> (r: Result<PluginRegisterMessage, GatewayError>)
        ensures
            match decoded_register_request(bytes@) {
                Some(m) => r matches Ok(got) && got@ == m,
                None => r matches Err(e) && e@ == malformed_message(),
            },
    {
        match read_document(bytes) {
            Some(doc) => match PluginRegisterMessage::from_json(&doc) {
                Some(m) => Ok(m),
                None => Err(GatewayError::malformed("malformed message")),
            },
            None => Err(GatewayError::malformed("malformed message")),
        }
    }
}

impl GatewayRegisterMessage {
    /// The message as a JSON document.
    pub fn to_json(&self) -> (doc: Value)
        ensures
            json_model(doc) == register_reply_json(self@),
    {
        match self {
            GatewayRegisterMessage::RegisterPluginReply { plugin_id, ipc_base_addr } => {
                let mut d = object_new();
                put_text(&mut d, "pluginId", plugin_id.as_str());
                put_text(&mut d, "ipcBaseAddr", ipc_base_addr.as_str());
                seal("registerPluginReply", d)
            },
        }
    }

    /// The message that a JSON document holds, or `None` where the document
    /// is no registration reply.
    pub fn from_json(doc: &Value) -> (r: Option<GatewayRegisterMessage>)
        ensures
            match r {
                Some(m) => register_reply_from(json_model(*doc)) == Some(m@),
                None => register_reply_from(json_model(*doc)) is None,
            },
    {
        match unseal(doc) {
            Some((tag, d)) => {
                if crate::json::str_eq(tag.as_str(), "registerPluginReply") {
                    match (get_text(d, "pluginId"), get_text(d, "ipcBaseAddr")) {
                        (Some(plugin_id), Some(ipc_base_addr)) => Some(
                            GatewayRegisterMessage::RegisterPluginReply { plugin_id, ipc_base_addr },
                        ),
                        _ => None,
                    }
                } else {
                    None
                }
            },
            None => None,
        }
    }

    /// The message as compact JSON text.
    pub fn encode(&self) -> (r: Result<String, GatewayError>)
        ensures
            match rendered_json(register_reply_json(self@)) {
                Some(text) => r matches Ok(s) && s@ == text,
                None => r matches Err(e) && e@ == unwritable_message(),
            },
    {
        write_document(&self.to_json())
    }

    /// The message that `bytes` spell, or `Malformed` where they spell none.
    pub fn decode(bytes: &[u8]) -> (r: Result<GatewayRegisterMessage, GatewayError>)
        ensures
            match decoded_register_reply(bytes@) {
                Some(m) => r matches Ok(got) && got@ == m,
                None => r matches Err(e) && e@ == malformed_message(),
            },
    {
        match read_document(bytes) {
            Some(doc) => match GatewayRegisterMessage::from_json(&doc) {
                Some(m) => Ok(m),
                None => Err(GatewayError::malformed("malformed message")),
            },
            None => Err(GatewayError::malformed("malformed message")),
        }
    }
}

} // verus!
