//! The bridge to the gateway: the registration handshake and the relay that
//! follows it, as a state machine.
//!
//! The bridge owns no socket and no queue. Its caller performs each action
//! that [`GatewayBridge::step`] returns and reports what happened as the
//! next event.

use vstd::prelude::*;
use vstd::string::StringExecFns;
use crate::command::decoded_command;
use crate::error::{ErrorKind, GatewayError, GatewayErrorView};
use crate::event::event_json;
use crate::json::rendered_json;
use crate::message::{
    GatewayMessage, GatewayMessageView, GatewayRegisterMessage, GatewayRegisterMessageView,
    PluginMessage, PluginMessageView, PluginRegisterMessage, PluginRegisterMessageView,
};
use crate::register::{decoded_register_reply, register_request_json};
use crate::wire::{malformed_message, unwritable_message};

verus! {

/// Where the bridge stands.
#[derive(Clone, Copy, Debug, PartialEq, Eq, Structural)]
pub enum BridgeState {
    /// Nothing has been sent yet.
    Disconnected,
    /// The registration request is out; the reply is awaited.
    Registering,
    /// The gateway has named the duplex address; the connection is being
    /// opened.
    Paired,
    /// Messages are relayed in both directions.
    Relaying,
    /// The last event is being written; the connection closes after it.
    ShuttingDown,
    /// The bridge is done, normally or after a fatal error.
    Closed,
}

/// What the caller reports to the bridge.
#[derive(Clone, Debug, PartialEq)]
pub enum BridgeEvent {
    /// The bridge is to begin.
    Start,
    /// The reply to the registration request was read.
    Reply(Vec<u8>),
    /// The duplex connection is open.
    Connected,
    /// One complete message was read from the duplex connection.
    Inbound(Vec<u8>),
    /// The router has an event for the gateway.
    Outbound(PluginMessage),
    /// Nothing was read and nothing is to be sent.
    Quiet,
    /// Writing to the duplex connection failed.
    WriteFailed,
    /// The duplex connection was closed after the last write.
    Closed,
}

pub enum BridgeEventView {
    Start,
    Reply(Seq<u8>),
    Connected,
    Inbound(Seq<u8>),
    Outbound(PluginMessageView),
    Quiet,
    WriteFailed,
    Closed,
}

impl View for BridgeEvent {
    type V = BridgeEventView;

    open spec fn view(&self) -> BridgeEventView {
        match self {
            BridgeEvent::Start => BridgeEventView::Start,
            BridgeEvent::Reply(bytes) => BridgeEventView::Reply(bytes@),
            BridgeEvent::Connected => BridgeEventView::Connected,
            BridgeEvent::Inbound(bytes) => BridgeEventView::Inbound(bytes@),
            BridgeEvent::Outbound(m) => BridgeEventView::Outbound(m@),
            BridgeEvent::Quiet => BridgeEventView::Quiet,
            BridgeEvent::WriteFailed => BridgeEventView::WriteFailed,
            BridgeEvent::Closed => BridgeEventView::Closed,
        }
    }
}

/// What the caller is to do next.
#[derive(Clone, Debug, PartialEq)]
pub enum BridgeAction {
    /// Open a request/reply connection to `endpoint`, send `request`, read
    /// the one reply, close the connection and report the reply.
    Register { endpoint: String, request: String },
    /// Open the duplex connection to `address` and report it open.
    Connect { address: String },
    /// Hand the command to the router.
    Forward(GatewayMessage),
    /// The bytes read were no command: log and drop them.
    Discard,
    /// Write the text to the duplex connection.
    Write(String),
    /// Write the text to the duplex connection, close the connection and
    /// report it closed.
    WriteAndClose(String),
    /// Nothing to do in this turn: pause, then poll again.
    Wait,
    /// The relay has ended as it should.
    Stop,
    /// The bridge has failed for good.
    Fail(GatewayError),
    /// The event has no meaning where the bridge stands; nothing changes.
    Ignore,
}

pub enum BridgeActionView {
    Register { endpoint: Seq<char>, request: Seq<char> },
    Connect { address: Seq<char> },
    Forward(GatewayMessageView),
    Discard,
    Write(Seq<char>),
    WriteAndClose(Seq<char>),
    Wait,
    Stop,
    Fail(GatewayErrorView),
    Ignore,
}

impl View for BridgeAction {
    type V = BridgeActionView;

    open spec fn view(&self) -> BridgeActionView {
        match self {
            BridgeAction::Register { endpoint, request } => BridgeActionView::Register {
                endpoint: endpoint@,
                request: request@,
            },
            BridgeAction::Connect { address } => BridgeActionView::Connect { address: address@ },
            BridgeAction::Forward(m) => BridgeActionView::Forward(m@),
            BridgeAction::Discard => BridgeActionView::Discard,
            BridgeAction::Write(text) => BridgeActionView::Write(text@),
            BridgeAction::WriteAndClose(text) => BridgeActionView::WriteAndClose(text@),
            BridgeAction::Wait => BridgeActionView::Wait,
            BridgeAction::Stop => BridgeActionView::Stop,
            BridgeAction::Fail(e) => BridgeActionView::Fail(e@),
            BridgeAction::Ignore => BridgeActionView::Ignore,
        }
    }
}

/// The bridge of one plugin.
#[derive(Clone, Debug)]
pub struct GatewayBridge {
    id: String,
    base: String,
    state: BridgeState,
}

pub struct GatewayBridgeView {
    pub id: Seq<char>,
    pub base: Seq<char>,
    pub state: BridgeState,
}

impl View for GatewayBridge {
    type V = GatewayBridgeView;

    closed spec fn view(&self) -> GatewayBridgeView {
        GatewayBridgeView { id: self.id@, base: self.base@, state: self.state }
    }
}

/// The base address under which the gateway's endpoints lie unless another
/// is given.
pub open spec fn default_base() -> Seq<char> {
    "ipc:///tmp"@
}

/// The address of the endpoint `name` under `base`.
pub open spec fn endpoint_under(base: Seq<char>, name: Seq<char>) -> Seq<char> {
    base + "/"@ + name
}

/// The address of the registration endpoint under `base`.
pub open spec fn manager_endpoint(base: Seq<char>) -> Seq<char> {
    endpoint_under(base, "gateway.addonManager"@)
}

/// The error for a reply that names another plugin.
pub open spec fn protocol_mismatch() -> GatewayErrorView {
    GatewayErrorView {
        kind: ErrorKind::ProtocolMismatch,
        message: "mismatched plugin id on channel"@,
    }
}

/// The error for a failed write to the gateway.
pub open spec fn transport_failure() -> GatewayErrorView {
    GatewayErrorView { kind: ErrorKind::Transport, message: "cannot write to the gateway"@ }
}

/// The state that follows and the action that is due when the bridge `b`
/// learns of `e`.
pub open spec fn next(b: GatewayBridgeView, e: BridgeEventView) -> (BridgeState, BridgeActionView) {
    match (b.state, e) {
        (BridgeState::Disconnected, BridgeEventView::Start) => {
            let request = PluginRegisterMessageView::RegisterPlugin { plugin_id: b.id };
            match rendered_json(register_request_json(request)) {
                Some(text) => (
                    BridgeState::Registering,
                    BridgeActionView::Register { endpoint: manager_endpoint(b.base), request: text },
                ),
                None => (BridgeState::Closed, BridgeActionView::Fail(unwritable_message())),
            }
        },
        (BridgeState::Registering, BridgeEventView::Reply(bytes)) => {
            match decoded_register_reply(bytes) {
                Some(
                    GatewayRegisterMessageView::RegisterPluginReply { plugin_id, ipc_base_addr },
                ) => if plugin_id == b.id {
                    (
                        BridgeState::Paired,
                        BridgeActionView::Connect { address: endpoint_under(b.base, ipc_base_addr) },
                    )
                } else {
                    (BridgeState::Closed, BridgeActionView::Fail(protocol_mismatch()))
                },
                None => (BridgeState::Closed, BridgeActionView::Fail(malformed_message())),
            }
        },
        (BridgeState::Paired, BridgeEventView::Connected) => (
            BridgeState::Relaying,
            BridgeActionView::Wait,
        ),
        (BridgeState::Relaying, BridgeEventView::Inbound(bytes)) => match decoded_command(bytes) {
            Some(m) => (BridgeState::Relaying, BridgeActionView::Forward(m)),
            None => (BridgeState::Relaying, BridgeActionView::Discard),
        },
        (BridgeState::Relaying, BridgeEventView::Outbound(m)) => match rendered_json(
            event_json(m),
        ) {
            Some(text) => if m is PluginUnloaded {
                (BridgeState::ShuttingDown, BridgeActionView::WriteAndClose(text))
            } else {
                (BridgeState::Relaying, BridgeActionView::Write(text))
            },
            None => (BridgeState::Closed, BridgeActionView::Fail(unwritable_message())),
        },
        (BridgeState::Relaying, BridgeEventView::Quiet) => (
            BridgeState::Relaying,
            BridgeActionView::Wait,
        ),
        (BridgeState::Relaying, BridgeEventView::WriteFailed) => (
            BridgeState::Closed,
            BridgeActionView::Fail(transport_failure()),
        ),
        (BridgeState::ShuttingDown, BridgeEventView::WriteFailed) => (
            BridgeState::Closed,
            BridgeActionView::Fail(transport_failure()),
        ),
        (BridgeState::ShuttingDown, BridgeEventView::Closed) => (
            BridgeState::Closed,
            BridgeActionView::Stop,
        ),
        (state, _) => (state, BridgeActionView::Ignore),
    }
}

/// A reply that names the plugin that asked takes the bridge to `Paired`,
/// with the duplex address made of the base, a slash and the address that
/// the gateway gave. A reply that names another plugin ends the bridge with
/// `ProtocolMismatch`; it never reaches `Paired`.
pub proof fn lemma_registration(
    b: GatewayBridgeView,
    bytes: Seq<u8>,
    plugin_id: Seq<char>,
    ipc_base_addr: Seq<char>,
)
    requires
        b.state == BridgeState::Registering,
        decoded_register_reply(bytes) == Some(
            GatewayRegisterMessageView::RegisterPluginReply { plugin_id, ipc_base_addr },
        ),
    ensures
        plugin_id == b.id ==> next(b, BridgeEventView::Reply(bytes)) == (
            BridgeState::Paired,
            BridgeActionView::Connect { address: b.base + "/"@ + ipc_base_addr },
        ),
        plugin_id != b.id ==> next(b, BridgeEventView::Reply(bytes)) == (
            BridgeState::Closed,
            BridgeActionView::Fail(protocol_mismatch()),
        ),
{
}

/// While relaying, the event `PluginUnloaded` is written and the connection
/// closed after it. From then on no event of the router is accepted: the
/// bridge ignores it and stays where it is, before and after the connection
/// is reported closed.
pub proof fn lemma_shutdown(
    b: GatewayBridgeView,
    last: PluginMessageView,
    text: Seq<char>,
    later: PluginMessageView,
)
    requires
        b.state == BridgeState::Relaying,
        last is PluginUnloaded,
        rendered_json(event_json(last)) == Some(text),
    ensures
        next(b, BridgeEventView::Outbound(last)) == (
            BridgeState::ShuttingDown,
            BridgeActionView::WriteAndClose(text),
        ),
        next(
            GatewayBridgeView { state: BridgeState::ShuttingDown, ..b },
            BridgeEventView::Outbound(later),
        ) == (BridgeState::ShuttingDown, BridgeActionView::Ignore),
        next(GatewayBridgeView { state: BridgeState::ShuttingDown, ..b }, BridgeEventView::Closed)
            == (BridgeState::Closed, BridgeActionView::Stop),
        next(
            GatewayBridgeView { state: BridgeState::Closed, ..b },
            BridgeEventView::Outbound(later),
        ) == (BridgeState::Closed, BridgeActionView::Ignore),
{
}

/// The address of the endpoint `name` under `base`.
pub fn endpoint(base: &str, name: &str) -> (address: String)
    ensures
        address@ == endpoint_under(base@, name@),
{
    let mut address = base.to_owned();
    address.append("/");
    address.append(name);
    address
}

impl GatewayBridge {
    /// A bridge for the plugin `id`, with the gateway's endpoints under the
    /// default base address.
    pub fn new(id: &str) -> (b: GatewayBridge)
        ensures
            b@ == (GatewayBridgeView {
                id: id@,
                base: default_base(),
                state: BridgeState::Disconnected,
            }),
    {
        GatewayBridge::with_base(id, "ipc:///tmp")
    }

    /// A bridge for the plugin `id`, with the gateway's endpoints under
    /// `base`.
    pub fn with_base(id: &str, base: &str) -> (b: GatewayBridge)
        ensures
            b@ == (GatewayBridgeView { id: id@, base: base@, state: BridgeState::Disconnected }),
    {
        GatewayBridge { id: id.to_owned(), base: base.to_owned(), state: BridgeState::Disconnected }
    }

    /// Where the bridge stands.
    pub fn state(&self) -> (s: BridgeState)
        ensures
            s == self@.state,
    {
        self.state
    }

    /// The plugin that the bridge registers.
    pub fn plugin_id(&self) -> (id: &str)
        ensures
            id@ == self@.id,
    {
        self.id.as_str()
    }

    /// The base address of the gateway's endpoints.
    pub fn base(&self) -> (base: &str)
        ensures
            base@ == self@.base,
    {
        self.base.as_str()
    }

    /// Whether the bridge is done.
    pub fn is_closed(&self) -> (r: bool)
        ensures
            r == (self@.state == BridgeState::Closed),
    {
        self.state == BridgeState::Closed
    }

    /// Takes one event and returns the action that is due.
    pub fn step(&mut self, event: BridgeEvent) -> (action: BridgeAction)
        ensures
            final(self)@.id == old(self)@.id,
            final(self)@.base == old(self)@.base,
            (final(self)@.state, action@) == next(old(self)@, event@),
    {
        match (self.state, event) {
            (BridgeState::Disconnected, BridgeEvent::Start) => {
                let request = PluginRegisterMessage::RegisterPlugin { plugin_id: self.id.clone() };
                match request.encode() {
                    Ok(text) => {
                        self.state = BridgeState::Registering;
                        BridgeAction::Register {
                            endpoint: endpoint(self.base.as_str(), "gateway.addonManager"),
                            request: text,
                        }
                    },
                    Err(e) => {
                        self.state = BridgeState::Closed;
                        BridgeAction::Fail(e)
                    },
                }
            },
            (BridgeState::Registering, BridgeEvent::Reply(bytes)) => {
                match GatewayRegisterMessage::decode(bytes.as_slice()) {
                    Ok(GatewayRegisterMessage::RegisterPluginReply { plugin_id, ipc_base_addr }) => {
                        if plugin_id == self.id {
                            self.state = BridgeState::Paired;
                            BridgeAction::Connect {
                                address: endpoint(self.base.as_str(), ipc_base_addr.as_str()),
                            }
                        } else {
                            self.state = BridgeState::Closed;
                            BridgeAction::Fail(
                                GatewayError::new(
                                    ErrorKind::ProtocolMismatch,
                                    "mismatched plugin id on channel",
                                ),
                            )
                        }
                    },
                    Err(e) => {
                        self.state = BridgeState::Closed;
                        BridgeAction::Fail(e)
                    },
                }
            },
            (BridgeState::Paired, BridgeEvent::Connected) => {
                self.state = BridgeState::Relaying;
                BridgeAction::Wait
            },
            (BridgeState::Relaying, BridgeEvent::Inbound(bytes)) => {
                match GatewayMessage::decode(bytes.as_slice()) {
                    Ok(m) => BridgeAction::Forward(m),
                    Err(_) => BridgeAction::Discard,
                }
            },
            (BridgeState::Relaying, BridgeEvent::Outbound(m)) => {
                match m.encode() {
                    Ok(text) => {
                        if m.is_plugin_unloaded() {
                            self.state = BridgeState::ShuttingDown;
                            BridgeAction::WriteAndClose(text)
                        } else {
                            BridgeAction::Write(text)
                        }
                    },
                    Err(e) => {
                        self.state = BridgeState::Closed;
                        BridgeAction::Fail(e)
                    },
                }
            },
            (BridgeState::Relaying, BridgeEvent::Quiet) => BridgeAction::Wait,
            (BridgeState::Relaying, BridgeEvent::WriteFailed) => {
                self.state = BridgeState::Closed;
                BridgeAction::Fail(
                    GatewayError::new(ErrorKind::Transport, "cannot write to the gateway"),
                )
            },
            (BridgeState::ShuttingDown, BridgeEvent::WriteFailed) => {
                self.state = BridgeState::Closed;
                BridgeAction::Fail(
                    GatewayError::new(ErrorKind::Transport, "cannot write to the gateway"),
                )
            },
            (BridgeState::ShuttingDown, BridgeEvent::Closed) => {
                self.state = BridgeState::Closed;
                BridgeAction::Stop
            },
            (_, _) => BridgeAction::Ignore,
        }
    }
}

} // verus!
