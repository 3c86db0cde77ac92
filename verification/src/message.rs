//! The envelopes exchanged with the gateway and the records they carry.
//!
//! Each type comes with a view: the same data over mathematical strings,
//! documents and maps, which is what contracts compare.

use vstd::prelude::*;
use serde_json::Value;
use crate::json::{json_model, Json};
use crate::registry::{view_map, Registry};

verus! {

/// A named action that a device offers.
#[derive(Debug, PartialEq)]
pub struct ActionDescription {
    pub name: String,
}

pub struct ActionDescriptionView {
    pub name: Seq<char>,
}

impl View for ActionDescription {
    type V = ActionDescriptionView;

    open spec fn view(&self) -> ActionDescriptionView {
        ActionDescriptionView { name: self.name@ }
    }
}

impl Clone for ActionDescription {
    fn clone(&self) -> (r: Self)
        ensures
            r@ == self@,
    {
        ActionDescription { name: self.name.clone() }
    }
}

/// A property value under its name, as commands and events carry it.
#[derive(Debug, PartialEq)]
pub struct Property {
    pub name: String,
    pub value: Value,
}

pub struct PropertyView {
    pub name: Seq<char>,
    pub value: Json,
}

impl View for Property {
    type V = PropertyView;

    open spec fn view(&self) -> PropertyView {
        PropertyView { name: self.name@, value: json_model(self.value) }
    }
}

impl Clone for Property {
    fn clone(&self) -> (r: Self)
        ensures
            r@ == self@,
    {
        Property { name: self.name.clone(), value: self.value.clone() }
    }
}

/// What a device reports of one of its properties when it is announced.
#[derive(Debug, PartialEq)]
pub struct PropertyDescription {
    pub name: String,
    pub value: Value,
    pub typ: String,
    pub unit: Option<String>,
    pub description: Option<String>,
    pub min: Option<String>,
    pub max: Option<String>,
    pub visible: bool,
}

pub struct PropertyDescriptionView {
    pub name: Seq<char>,
    pub value: Json,
    pub typ: Seq<char>,
    pub unit: Option<Seq<char>>,
    pub description: Option<Seq<char>>,
    pub min: Option<Seq<char>>,
    pub max: Option<Seq<char>>,
    pub visible: bool,
}

impl View for PropertyDescription {
    type V = PropertyDescriptionView;

    open spec fn view(&self) -> PropertyDescriptionView {
        PropertyDescriptionView {
            name: self.name@,
            value: json_model(self.value),
            typ: self.typ@,
            unit: self.unit.deep_view(),
            description: self.description.deep_view(),
            min: self.min.deep_view(),
            max: self.max.deep_view(),
            visible: self.visible,
        }
    }
}

/// A copy of a text that may be absent.
pub fn clone_text(text: &Option<String>) -> (r: Option<String>)
    ensures
        r.deep_view() == text.deep_view(),
{
    match text {
        Some(s) => Some(s.clone()),
        None => None,
    }
}

impl Clone for PropertyDescription {
    fn clone(&self) -> (r: Self)
        ensures
            r@ == self@,
    {
        PropertyDescription {
            name: self.name.clone(),
            value: self.value.clone(),
            typ: self.typ.clone(),
            unit: clone_text(&self.unit),
            description: clone_text(&self.description),
            min: clone_text(&self.min),
            max: clone_text(&self.max),
            visible: self.visible,
        }
    }
}

/// Two registries with the same identifiers, the items of the second clones
/// of those of the first, describe the same properties.
pub proof fn lemma_cloned_properties(
    a: Registry<PropertyDescription>,
    b: Registry<PropertyDescription>,
)
    requires
        a.ids() == b.ids(),
        a.items().len() == b.items().len(),
        a.ids().len() == a.items().len(),
        forall|i: int|
            0 <= i < a.items().len() ==> cloned::<PropertyDescription>(
                #[trigger] a.items()[i],
                b.items()[i],
            ),
    ensures
        property_map(a) == property_map(b),
{
    assert forall|k: Seq<char>| a.ids().contains(k) implies a.items()[a.ids().index_of(k)]@
        == b.items()[a.ids().index_of(k)]@ by {
    }
}

/// Two registries with the same identifiers, the items of the second clones
/// of those of the first, describe the same actions.
pub proof fn lemma_cloned_actions(a: Registry<ActionDescription>, b: Registry<ActionDescription>)
    requires
        a.ids() == b.ids(),
        a.items().len() == b.items().len(),
        a.ids().len() == a.items().len(),
        forall|i: int|
            0 <= i < a.items().len() ==> cloned::<ActionDescription>(
                #[trigger] a.items()[i],
                b.items()[i],
            ),
    ensures
        action_map(a) == action_map(b),
{
    assert forall|k: Seq<char>| a.ids().contains(k) implies a.items()[a.ids().index_of(k)]@
        == b.items()[a.ids().index_of(k)]@ by {
    }
}

/// The property descriptions of a registry, by property name.
pub open spec fn property_map(r: Registry<PropertyDescription>) -> Map<
    Seq<char>,
    PropertyDescriptionView,
> {
    view_map(r)
}

/// The action descriptions of a registry, by action name.
pub open spec fn action_map(r: Registry<ActionDescription>) -> Map<
    Seq<char>,
    ActionDescriptionView,
> {
    view_map(r)
}

/// The request a plugin opens the registration with.
#[derive(Clone, Debug, PartialEq)]
pub enum PluginRegisterMessage {
    RegisterPlugin { plugin_id: String },
}

pub enum PluginRegisterMessageView {
    RegisterPlugin { plugin_id: Seq<char> },
}

impl View for PluginRegisterMessage {
    type V = PluginRegisterMessageView;

    open spec fn view(&self) -> PluginRegisterMessageView {
        match self {
            PluginRegisterMessage::RegisterPlugin { plugin_id } => {
                PluginRegisterMessageView::RegisterPlugin { plugin_id: plugin_id@ }
            },
        }
    }
}

/// The gateway's reply to a registration.
#[derive(Clone, Debug, PartialEq)]
pub enum GatewayRegisterMessage {
    RegisterPluginReply { plugin_id: String, ipc_base_addr: String },
}

pub enum GatewayRegisterMessageView {
    RegisterPluginReply { plugin_id: Seq<char>, ipc_base_addr: Seq<char> },
}

impl View for GatewayRegisterMessage {
    type V = GatewayRegisterMessageView;

    open spec fn view(&self) -> GatewayRegisterMessageView {
        match self {
            GatewayRegisterMessage::RegisterPluginReply { plugin_id, ipc_base_addr } => {
                GatewayRegisterMessageView::RegisterPluginReply {
                    plugin_id: plugin_id@,
                    ipc_base_addr: ipc_base_addr@,
                }
            },
        }
    }
}

/// A command from the gateway.
#[derive(Clone, Debug, PartialEq)]
pub enum GatewayMessage {
    UnloadPlugin { plugin_id: String },
    UnloadAdapter { plugin_id: String, adapter_id: String },
    SetProperty {
        plugin_id: String,
        adapter_id: String,
        device_id: String,
        property_name: String,
        property_value: Value,
    },
    RequestAction {
        plugin_id: String,
        adapter_id: String,
        device_id: String,
        action_id: serde_json::Number,
        action_name: String,
        input: Value,
    },
    StartPairing { plugin_id: String, adapter_id: String, timeout: serde_json::Number },
    CancelPairing { plugin_id: String, adapter_id: String },
    RemoveThing { plugin_id: String, adapter_id: String, device_id: String },
    CancelRemoveThing { plugin_id: String, adapter_id: String, device_id: String },
}

pub enum GatewayMessageView {
    UnloadPlugin { plugin_id: Seq<char> },
    UnloadAdapter { plugin_id: Seq<char>, adapter_id: Seq<char> },
    SetProperty {
        plugin_id: Seq<char>,
        adapter_id: Seq<char>,
        device_id: Seq<char>,
        property_name: Seq<char>,
        property_value: Json,
    },
    RequestAction {
        plugin_id: Seq<char>,
        adapter_id: Seq<char>,
        device_id: Seq<char>,
        action_id: serde_json::Number,
        action_name: Seq<char>,
        input: Json,
    },
    StartPairing { plugin_id: Seq<char>, adapter_id: Seq<char>, timeout: serde_json::Number },
    CancelPairing { plugin_id: Seq<char>, adapter_id: Seq<char> },
    RemoveThing { plugin_id: Seq<char>, adapter_id: Seq<char>, device_id: Seq<char> },
    CancelRemoveThing { plugin_id: Seq<char>, adapter_id: Seq<char>, device_id: Seq<char> },
}

impl View for GatewayMessage {
    type V = GatewayMessageView;

    open spec fn view(&self) -> GatewayMessageView {
        match self {
            GatewayMessage::UnloadPlugin { plugin_id } => GatewayMessageView::UnloadPlugin {
                plugin_id: plugin_id@,
            },
            GatewayMessage::UnloadAdapter { plugin_id, adapter_id } => {
                GatewayMessageView::UnloadAdapter { plugin_id: plugin_id@, adapter_id: adapter_id@ }
            },
            GatewayMessage::SetProperty {
                plugin_id,
                adapter_id,
                device_id,
                property_name,
                property_value,
            } => GatewayMessageView::SetProperty {
                plugin_id: plugin_id@,
                adapter_id: adapter_id@,
                device_id: device_id@,
                property_name: property_name@,
                property_value: json_model(*property_value),
            },
            GatewayMessage::RequestAction {
                plugin_id,
                adapter_id,
                device_id,
                action_id,
                action_name,
                input,
            } => GatewayMessageView::RequestAction {
                plugin_id: plugin_id@,
                adapter_id: adapter_id@,
                device_id: device_id@,
                action_id: *action_id,
                action_name: action_name@,
                input: json_model(*input),
            },
            GatewayMessage::StartPairing { plugin_id, adapter_id, timeout } => {
                GatewayMessageView::StartPairing {
                    plugin_id: plugin_id@,
                    adapter_id: adapter_id@,
                    timeout: *timeout,
                }
            },
            GatewayMessage::CancelPairing { plugin_id, adapter_id } => {
                GatewayMessageView::CancelPairing { plugin_id: plugin_id@, adapter_id: adapter_id@ }
            },
            GatewayMessage::RemoveThing { plugin_id, adapter_id, device_id } => {
                GatewayMessageView::RemoveThing {
                    plugin_id: plugin_id@,
                    adapter_id: adapter_id@,
                    device_id: device_id@,
                }
            },
            GatewayMessage::CancelRemoveThing { plugin_id, adapter_id, device_id } => {
                GatewayMessageView::CancelRemoveThing {
                    plugin_id: plugin_id@,
                    adapter_id: adapter_id@,
                    device_id: device_id@,
                }
            },
        }
    }
}

impl GatewayMessageView {
    /// The plugin that the command is addressed to.
    pub open spec fn plugin_id(self) -> Seq<char> {
        match self {
            GatewayMessageView::UnloadPlugin { plugin_id } => plugin_id,
            GatewayMessageView::UnloadAdapter { plugin_id, .. } => plugin_id,
            GatewayMessageView::SetProperty { plugin_id, .. } => plugin_id,
            GatewayMessageView::RequestAction { plugin_id, .. } => plugin_id,
            GatewayMessageView::StartPairing { plugin_id, .. } => plugin_id,
            GatewayMessageView::CancelPairing { plugin_id, .. } => plugin_id,
            GatewayMessageView::RemoveThing { plugin_id, .. } => plugin_id,
            GatewayMessageView::CancelRemoveThing { plugin_id, .. } => plugin_id,
        }
    }
}

impl GatewayMessage {
    /// Whether the command asks for a property to be set.
    pub fn is_set_property(&self) -> (r: bool)
        ensures
            r == (self@ is SetProperty),
    {
        match self {
            GatewayMessage::SetProperty { .. } => true,
            _ => false,
        }
    }

    /// The plugin that the command is addressed to.
    pub fn plugin_id(&self) -> (id: &str)
        ensures
            id@ == self@.plugin_id(),
    {
        match self {
            GatewayMessage::UnloadPlugin { plugin_id } => plugin_id.as_str(),
            GatewayMessage::UnloadAdapter { plugin_id, .. } => plugin_id.as_str(),
            GatewayMessage::SetProperty { plugin_id, .. } => plugin_id.as_str(),
            GatewayMessage::RequestAction { plugin_id, .. } => plugin_id.as_str(),
            GatewayMessage::StartPairing { plugin_id, .. } => plugin_id.as_str(),
            GatewayMessage::CancelPairing { plugin_id, .. } => plugin_id.as_str(),
            GatewayMessage::RemoveThing { plugin_id, .. } => plugin_id.as_str(),
            GatewayMessage::CancelRemoveThing { plugin_id, .. } => plugin_id.as_str(),
        }
    }
}

/// An event from the plugin.
#[derive(Clone, Debug, PartialEq)]
pub enum PluginMessage {
    PluginUnloaded { plugin_id: String },
    AdapterUnloaded { plugin_id: String, adapter_id: String },
    AddAdapter { plugin_id: String, adapter_id: String, name: String, package_name: String },
    HandleDeviceAdded {
        plugin_id: String,
        adapter_id: String,
        id: String,
        name: String,
        typ: String,
        properties: Registry<PropertyDescription>,
        actions: Registry<ActionDescription>,
    },
    HandleDeviceRemoved { plugin_id: String, adapter_id: String, id: String },
    PropertyChanged { plugin_id: String, adapter_id: String, device_id: String, property: Property },
}

pub enum PluginMessageView {
    PluginUnloaded { plugin_id: Seq<char> },
    AdapterUnloaded { plugin_id: Seq<char>, adapter_id: Seq<char> },
    AddAdapter {
        plugin_id: Seq<char>,
        adapter_id: Seq<char>,
        name: Seq<char>,
        package_name: Seq<char>,
    },
    HandleDeviceAdded {
        plugin_id: Seq<char>,
        adapter_id: Seq<char>,
        id: Seq<char>,
        name: Seq<char>,
        typ: Seq<char>,
        properties: Map<Seq<char>, PropertyDescriptionView>,
        actions: Map<Seq<char>, ActionDescriptionView>,
    },
    HandleDeviceRemoved { plugin_id: Seq<char>, adapter_id: Seq<char>, id: Seq<char> },
    PropertyChanged {
        plugin_id: Seq<char>,
        adapter_id: Seq<char>,
        device_id: Seq<char>,
        property: PropertyView,
    },
}

impl View for PluginMessage {
    type V = PluginMessageView;

    open spec fn view(&self) -> PluginMessageView {
        match self {
            PluginMessage::PluginUnloaded { plugin_id } => PluginMessageView::PluginUnloaded {
                plugin_id: plugin_id@,
            },
            PluginMessage::AdapterUnloaded { plugin_id, adapter_id } => {
                PluginMessageView::AdapterUnloaded { plugin_id: plugin_id@, adapter_id: adapter_id@ }
            },
            PluginMessage::AddAdapter { plugin_id, adapter_id, name, package_name } => {
                PluginMessageView::AddAdapter {
                    plugin_id: plugin_id@,
                    adapter_id: adapter_id@,
                    name: name@,
                    package_name: package_name@,
                }
            },
            PluginMessage::HandleDeviceAdded {
                plugin_id,
                adapter_id,
                id,
                name,
                typ,
                properties,
                actions,
            } => PluginMessageView::HandleDeviceAdded {
                plugin_id: plugin_id@,
                adapter_id: adapter_id@,
                id: id@,
                name: name@,
                typ: typ@,
                properties: property_map(*properties),
                actions: action_map(*actions),
            },
            PluginMessage::HandleDeviceRemoved { plugin_id, adapter_id, id } => {
                PluginMessageView::HandleDeviceRemoved {
                    plugin_id: plugin_id@,
                    adapter_id: adapter_id@,
                    id: id@,
                }
            },
            PluginMessage::PropertyChanged { plugin_id, adapter_id, device_id, property } => {
                PluginMessageView::PropertyChanged {
                    plugin_id: plugin_id@,
                    adapter_id: adapter_id@,
                    device_id: device_id@,
                    property: property@,
                }
            },
        }
    }
}

impl PluginMessage {
    /// Whether this is the event that ends the relay.
    pub fn is_plugin_unloaded(&self) -> (r: bool)
        ensures
            r == (self@ is PluginUnloaded),
    {
        match self {
            PluginMessage::PluginUnloaded { .. } => true,
            _ => false,
        }
    }
}

} // verus!
