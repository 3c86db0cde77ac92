//! The MQTT packets by which a device reports to a broker.
//!
//! This module decides what is sent: the fields of each packet and, through
//! `mqtt3`, its bytes. Connecting to the broker, writing the bytes and
//! reading the broker's answer are the caller's.

use vstd::prelude::*;
use vstd::string::StrSliceExecFns;
use vstd::string::StringExecFns;
use mqtt3::MqttWrite;
use serde_json::Value;
use crate::error::{to_io_error, ErrorKind, GatewayError, GatewayErrorView};
use crate::json::{json_model, rendered_json};
use crate::wire::{unwritable_message, write_document};

verus! {

/// The fields of a CONNECT packet.
#[derive(Clone, Debug, PartialEq)]
pub struct ConnectPacket {
    pub protocol_name: String,
    pub protocol_level: u8,
    pub keep_alive: u16,
    pub client_id: String,
    pub clean_session: bool,
    pub username: Option<String>,
    pub password: Option<String>,
}

pub struct ConnectPacketView {
    pub protocol_name: Seq<char>,
    pub protocol_level: u8,
    pub keep_alive: u16,
    pub client_id: Seq<char>,
    pub clean_session: bool,
    pub username: Option<Seq<char>>,
    pub password: Option<Seq<char>>,
}

impl View for ConnectPacket {
    type V = ConnectPacketView;

    open spec fn view(&self) -> ConnectPacketView {
        ConnectPacketView {
            protocol_name: self.protocol_name@,
            protocol_level: self.protocol_level,
            keep_alive: self.keep_alive,
            client_id: self.client_id@,
            clean_session: self.clean_session,
            username: self.username.deep_view(),
            password: self.password.deep_view(),
        }
    }
}

/// The fields of a PUBLISH packet. `qos` is the level of the quality of
/// service, 0 to 2.
#[derive(Clone, Debug, PartialEq)]
pub struct PublishPacket {
    pub dup: bool,
    pub qos: u8,
    pub retain: bool,
    pub topic_name: String,
    pub pid: Option<u16>,
    pub payload: Vec<u8>,
}

pub struct PublishPacketView {
    pub dup: bool,
    pub qos: u8,
    pub retain: bool,
    pub topic_name: Seq<char>,
    pub pid: Option<u16>,
    pub payload: Seq<u8>,
}

impl View for PublishPacket {
    type V = PublishPacketView;

    open spec fn view(&self) -> PublishPacketView {
        PublishPacketView {
            dup: self.dup,
            qos: self.qos,
            retain: self.retain,
            topic_name: self.topic_name@,
            pid: self.pid,
            payload: self.payload@,
        }
    }
}

/// The CONNECT packet of a session: MQTT 3.1.1, a clean session under a
/// fixed client id, the longest keep-alive, and the account's credentials.
pub open spec fn connect_request(username: Seq<char>, password: Seq<char>) -> ConnectPacketView {
    ConnectPacketView {
        protocol_name: "MQTT"@,
        protocol_level: 4,
        keep_alive: 65535,
        client_id: "rust-mq-example-pub"@,
        clean_session: true,
        username: Some(username),
        password: Some(password),
    }
}

/// The PUBLISH packet that reports `payload` under `topic`: delivered at
/// least once, not retained, under the packet identifier 10.
pub open spec fn publish_request(topic: Seq<char>, payload: Seq<u8>) -> PublishPacketView {
    PublishPacketView {
        dup: false,
        qos: 1,
        retain: false,
        topic_name: topic,
        pid: Some(10u16),
        payload,
    }
}

/// The topic under which the account `username` reports the property `prop`.
pub open spec fn value_topic(username: Seq<char>, prop: Seq<char>) -> Seq<char> {
    username + "/feeds/"@ + prop
}

/// The topic under which the account `username` reports actions.
pub open spec fn action_topic(username: Seq<char>) -> Seq<char> {
    username + "/feeds/actions"@
}

/// The error for a packet that `mqtt3` refuses to write.
pub open spec fn mqtt_failure() -> GatewayErrorView {
    GatewayErrorView { kind: ErrorKind::Other, message: "mqtt3 error"@ }
}

/// The bytes of a packet as the broker is to receive them, or the error
/// where there are none.
pub fn packet_bytes(written: Result<Vec<u8>, mqtt3::Error>) -> (r: Result<Vec<u8>, GatewayError>)
    ensures
        match written {
            Ok(bytes) => r == Ok::<Vec<u8>, GatewayError>(bytes),
            Err(_) => r matches Err(e) && e@ == mqtt_failure(),
        },
{
    match written {
        Ok(bytes) => Ok(bytes),
        Err(_) => Err(to_io_error("mqtt3 error".to_owned())),
    }
}

/// The account under which a device reports to the broker.
#[derive(Clone, Debug)]
pub struct MQTT {
    username: String,
    password: String,
}

impl MQTT {
    /// The account's name.
    pub closed spec fn user(&self) -> Seq<char> {
        self.username@
    }

    /// The account's password.
    pub closed spec fn secret(&self) -> Seq<char> {
        self.password@
    }

    /// A session for the account `username`.
    pub fn new(username: &str, password: &str) -> (m: MQTT)
        ensures
            m.user() == username@,
            m.secret() == password@,
    {
        MQTT { username: username.to_owned(), password: password.to_owned() }
    }

    /// The CONNECT packet that opens the session.
    pub fn connect_packet(&self) -> (p: ConnectPacket)
        ensures
            p@ == connect_request(self.user(), self.secret()),
    {
        ConnectPacket {
            protocol_name: "MQTT".to_owned(),
            protocol_level: 4,
            keep_alive: 65535,
            client_id: "rust-mq-example-pub".to_owned(),
            clean_session: true,
            username: Some(self.username.clone()),
            password: Some(self.password.clone()),
        }
    }

    /// The PUBLISH packet that reports the JSON text of `value` as the value
    /// of the property `prop`, or the error where the value has no text.
    pub fn value_packet(&self, prop: &str, value: &Value) -> (r: Result<PublishPacket, GatewayError>)
        ensures
            match rendered_json(json_model(*value)) {
                Some(text) => r matches Ok(p) && p@ == publish_request(
                    value_topic(self.user(), prop@),
                    vstd::utf8::encode_utf8(text),
                ),
                None => r matches Err(e) && e@ == unwritable_message(),
            },
    {
        match write_document(value) {
            Ok(text) => {
                let mut topic = self.username.clone();
                topic.append("/feeds/");
                topic.append(prop);
                Ok(
                    PublishPacket {
                        dup: false,
                        qos: 1,
                        retain: false,
                        topic_name: topic,
                        pid: Some(10),
                        payload: text.as_str().as_bytes_vec(),
                    },
                )
            },
            Err(e) => Err(e),
        }
    }

    /// The PUBLISH packet that reports the action `name`.
    pub fn action_packet(&self, name: &str) -> (p: PublishPacket)
        ensures
            p@ == publish_request(action_topic(self.user()), vstd::utf8::encode_utf8(name@)),
    {
        let mut topic = self.username.clone();
        topic.append("/feeds/actions");
        PublishPacket {
            dup: false,
            qos: 1,
            retain: false,
            topic_name: topic,
            pid: Some(10),
            payload: name.as_bytes_vec(),
        }
    }

    /// The bytes that open the session with the broker. The caller writes
    /// them and reads the broker's answer.
    pub fn send_connect(&self) -> (r: Result<Vec<u8>, GatewayError>)
        ensures
            match connect_bytes(connect_request(self.user(), self.secret())) {
                Some(bytes) => r matches Ok(b) && b@ == bytes,
                None => r matches Err(e) && e@ == mqtt_failure(),
            },
    {
        packet_bytes(write_connect(&self.connect_packet()))
    }

    /// The bytes that report `value` as the value of the property `prop`.
    /// The caller writes them and reads the broker's answer.
    pub fn publish_value(&self, prop: &str, value: &Value) -> (r: Result<Vec<u8>, GatewayError>)
        ensures
            match rendered_json(json_model(*value)) {
                Some(text) => match publish_bytes(
                    publish_request(value_topic(self.user(), prop@), vstd::utf8::encode_utf8(text)),
                ) {
                    Some(bytes) => r matches Ok(b) && b@ == bytes,
                    None => r matches Err(e) && e@ == mqtt_failure(),
                },
                None => r matches Err(e) && e@ == unwritable_message(),
            },
    {
        match self.value_packet(prop, value) {
            Ok(p) => packet_bytes(write_publish(&p)),
            Err(e) => Err(e),
        }
    }

    /// The bytes that report the action `name`. The caller writes them and
    /// reads the broker's answer.
    pub fn publish_action(&self, name: &str) -> (r: Result<Vec<u8>, GatewayError>)
        ensures
            match publish_bytes(
                publish_request(action_topic(self.user()), vstd::utf8::encode_utf8(name@)),
            ) {
                Some(bytes) => r matches Ok(b) && b@ == bytes,
                None => r matches Err(e) && e@ == mqtt_failure(),
            },
    {
        packet_bytes(write_publish(&self.action_packet(name)))
    }
}

// ---------------------------------------------------------------------------
// The boundary with `mqtt3`. Nothing below is proved.
// ---------------------------------------------------------------------------

#[verifier::external_type_specification]
#[verifier::external_body]
pub struct ExMqttError(mqtt3::Error);

/// The bytes that `mqtt3` writes for a CONNECT packet with the given fields
/// and no last will, or `None` where it reports an error.
pub uninterp spec fn connect_bytes(p: ConnectPacketView) -> Option<Seq<u8>>;

/// The bytes that `mqtt3` writes for a PUBLISH packet with the given fields,
/// or `None` where it reports an error.
pub uninterp spec fn publish_bytes(p: PublishPacketView) -> Option<Seq<u8>>;

/// `MqttWrite::write_packet` into a buffer, for a CONNECT packet with the
/// fields of `p` and no last will. The protocol is made by `Protocol::new`
/// from its name and level. The bytes depend on the fields alone.
#[verifier::external_body]
pub(crate) fn write_connect(p: &ConnectPacket) -> (r: Result<Vec<u8>, mqtt3::Error>)
    ensures
        match r {
            Ok(bytes) => connect_bytes(p@) == Some(bytes@),
            Err(_) => connect_bytes(p@) is None,
        },
{
    let connect = mqtt3::Connect {
        protocol: mqtt3::Protocol::new(p.protocol_name.as_str(), p.protocol_level)?,
        keep_alive: p.keep_alive,
        client_id: p.client_id.clone(),
        clean_session: p.clean_session,
        last_will: None,
        username: p.username.clone(),
        password: p.password.clone(),
    };
    let mut out = std::io::Cursor::new(Vec::new());
    out.write_packet(&mqtt3::Packet::Connect(Box::new(connect)))?;
    Ok(out.into_inner())
}

/// `MqttWrite::write_packet` into a buffer, for a PUBLISH packet with the
/// fields of `p`. The quality of service is made by `QoS::from_u8` from its
/// level. The bytes depend on the fields alone.
#[verifier::external_body]
pub(crate) fn write_publish(p: &PublishPacket) -> (r: Result<Vec<u8>, mqtt3::Error>)
    ensures
        match r {
            Ok(bytes) => publish_bytes(p@) == Some(bytes@),
            Err(_) => publish_bytes(p@) is None,
        },
{
    let publish = mqtt3::Publish {
        dup: p.dup,
        qos: mqtt3::QoS::from_u8(p.qos)?,
        retain: p.retain,
        topic_name: p.topic_name.clone(),
        pid: p.pid.map(mqtt3::PacketIdentifier),
        payload: std::sync::Arc::new(p.payload.clone()),
    };
    let mut out = std::io::Cursor::new(Vec::new());
    out.write_packet(&mqtt3::Packet::Publish(Box::new(publish)))?;
    Ok(out.into_inner())
}

} // verus!
