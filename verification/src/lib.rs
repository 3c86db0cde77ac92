//! A plugin-side bridge between device adapters and a home gateway.
//!
//! The crate holds the parts of the bridge that decide and compute: the
//! envelope codec, the registration and relay state machine, and the router
//! that dispatches gateway commands to adapters and devices. Sockets, queues,
//! threads and timers stay with the caller, which feeds events in and carries
//! actions out.

pub mod announce;
pub mod bridge;
pub mod capability;
pub mod command;
pub mod error;
pub mod event;
pub mod json;
pub mod message;
pub mod mqtt;
pub mod record;
pub mod register;
pub mod registry;
pub mod router;
pub mod switch;
pub mod wire;

pub use announce::{adapter_info, announcement, device_info, AdapterInfo, DeviceInfo};
pub use bridge::{endpoint, BridgeAction, BridgeEvent, BridgeState, GatewayBridge};
pub use capability::{
    request_device_action, set_device_property, unknown_adapter_name, unknown_device_name,
    unknown_device_type, Adapter, Device,
};
pub use error::{to_io_error, ErrorKind, GatewayError};
pub use message::{
    ActionDescription, GatewayMessage, GatewayRegisterMessage, PluginMessage,
    PluginRegisterMessage, Property, PropertyDescription,
};
pub use mqtt::{ConnectPacket, PublishPacket, MQTT};
pub use registry::Registry;
pub use router::{acknowledged, next_action, property_changed, Plugin, RouterAction};
pub use switch::{first_device_id, SwitchState};
