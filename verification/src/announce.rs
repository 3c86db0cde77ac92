//! The announcement that tells the gateway which adapters and devices a
//! plugin has.

use vstd::prelude::*;
use crate::capability::{Adapter, Device};
use crate::message::{
    action_map, lemma_cloned_actions, lemma_cloned_properties, property_map, ActionDescription,
    ActionDescriptionView, PluginMessage, PluginMessageView, PropertyDescription,
    PropertyDescriptionView,
};
use crate::registry::Registry;

verus! {

/// What a device reports of itself when its adapter is announced.
#[derive(Clone, Debug, PartialEq)]
pub struct DeviceInfo {
    pub id: String,
    pub name: String,
    pub typ: String,
    pub properties: Registry<PropertyDescription>,
    pub actions: Registry<ActionDescription>,
}

pub struct DeviceInfoView {
    pub id: Seq<char>,
    pub name: Seq<char>,
    pub typ: Seq<char>,
    pub properties: Map<Seq<char>, PropertyDescriptionView>,
    pub actions: Map<Seq<char>, ActionDescriptionView>,
}

impl View for DeviceInfo {
    type V = DeviceInfoView;

    open spec fn view(&self) -> DeviceInfoView {
        DeviceInfoView {
            id: self.id@,
            name: self.name@,
            typ: self.typ@,
            properties: property_map(self.properties),
            actions: action_map(self.actions),
        }
    }
}

/// What an adapter reports of itself and of its devices when it is announced.
#[derive(Clone, Debug, PartialEq)]
pub struct AdapterInfo {
    pub id: String,
    pub name: String,
    pub devices: Vec<DeviceInfo>,
}

pub struct AdapterInfoView {
    pub id: Seq<char>,
    pub name: Seq<char>,
    pub devices: Seq<DeviceInfoView>,
}

impl View for AdapterInfo {
    type V = AdapterInfoView;

    open spec fn view(&self) -> AdapterInfoView {
        AdapterInfoView {
            id: self.id@,
            name: self.name@,
            devices: self.devices@.map_values(|d: DeviceInfo| d@),
        }
    }
}

/// The ids of the devices in an adapter's report, in order.
pub open spec fn reported_devices(adapter: AdapterInfoView) -> Seq<Seq<char>> {
    adapter.devices.map_values(|d: DeviceInfoView| d.id)
}

/// The views of a sequence of adapter reports.
pub open spec fn adapter_views(adapters: Seq<AdapterInfo>) -> Seq<AdapterInfoView> {
    adapters.map_values(|a: AdapterInfo| a@)
}

/// The views of a sequence of events.
pub open spec fn event_views(events: Seq<PluginMessage>) -> Seq<PluginMessageView> {
    events.map_values(|m: PluginMessage| m@)
}

/// The event that announces an adapter.
pub open spec fn add_adapter_event(
    plugin_id: Seq<char>,
    package_name: Seq<char>,
    adapter: AdapterInfoView,
) -> PluginMessageView {
    PluginMessageView::AddAdapter {
        plugin_id,
        adapter_id: adapter.id,
        name: adapter.name,
        package_name,
    }
}

/// The event that announces a device of the adapter `adapter_id`.
pub open spec fn device_added_event(
    plugin_id: Seq<char>,
    adapter_id: Seq<char>,
    device: DeviceInfoView,
) -> PluginMessageView {
    PluginMessageView::HandleDeviceAdded {
        plugin_id,
        adapter_id,
        id: device.id,
        name: device.name,
        typ: device.typ,
        properties: device.properties,
        actions: device.actions,
    }
}

/// The events that announce one adapter: the adapter first, then each of its
/// devices in turn.
pub open spec fn adapter_announcement(
    plugin_id: Seq<char>,
    package_name: Seq<char>,
    adapter: AdapterInfoView,
) -> Seq<PluginMessageView> {
    seq![add_adapter_event(plugin_id, package_name, adapter)] + adapter.devices.map_values(
        |d: DeviceInfoView| device_added_event(plugin_id, adapter.id, d),
    )
}

/// The events that announce the adapters, one adapter after the other.
pub open spec fn announcement_of(
    plugin_id: Seq<char>,
    package_name: Seq<char>,
    adapters: Seq<AdapterInfoView>,
) -> Seq<PluginMessageView>
    decreases adapters.len(),
{
    if adapters.len() == 0 {
        Seq::empty()
    } else {
        announcement_of(plugin_id, package_name, adapters.drop_last()) + adapter_announcement(
            plugin_id,
            package_name,
            adapters.last(),
        )
    }
}

/// The number of devices that the adapters report, all together.
pub open spec fn device_total(adapters: Seq<AdapterInfoView>) -> nat
    decreases adapters.len(),
{
    if adapters.len() == 0 {
        0
    } else {
        device_total(adapters.drop_last()) + adapters.last().devices.len()
    }
}

/// Filtering keeps a sequence whose elements all pass.
proof fn lemma_filter_all<A>(s: Seq<A>, pred: spec_fn(A) -> bool)
    requires
        forall|i: int| 0 <= i < s.len() ==> pred(#[trigger] s[i]),
    ensures
        s.filter(pred) == s,
    decreases s.len(),
{
    reveal(Seq::filter);
    if s.len() > 0 {
        lemma_filter_all(s.drop_last(), pred);
    }
}

/// Filtering empties a sequence none of whose elements pass.
proof fn lemma_filter_none<A>(s: Seq<A>, pred: spec_fn(A) -> bool)
    requires
        forall|i: int| 0 <= i < s.len() ==> !pred(#[trigger] s[i]),
    ensures
        s.filter(pred).len() == 0,
    decreases s.len(),
{
    reveal(Seq::filter);
    if s.len() > 0 {
        lemma_filter_none(s.drop_last(), pred);
    }
}

/// Whether an event announces an adapter.
pub open spec fn is_add_adapter(m: PluginMessageView) -> bool {
    m is AddAdapter
}

/// Whether an event announces a device.
pub open spec fn is_device_added(m: PluginMessageView) -> bool {
    m is HandleDeviceAdded
}

/// The adapter that an announcing event speaks of.
pub open spec fn announced_adapter(m: PluginMessageView) -> Seq<char> {
    match m {
        PluginMessageView::AddAdapter { adapter_id, .. } => adapter_id,
        PluginMessageView::HandleDeviceAdded { adapter_id, .. } => adapter_id,
        _ => Seq::empty(),
    }
}

/// The announcement of N adapters holds exactly N `AddAdapter` events and one
/// `HandleDeviceAdded` event for each device, and nothing else.
pub proof fn lemma_announcement_counts(
    plugin_id: Seq<char>,
    package_name: Seq<char>,
    adapters: Seq<AdapterInfoView>,
)
    ensures
        announcement_of(plugin_id, package_name, adapters).len() == adapters.len() + device_total(
            adapters,
        ),
        announcement_of(plugin_id, package_name, adapters).filter(|m| is_add_adapter(m)).len()
            == adapters.len(),
        announcement_of(plugin_id, package_name, adapters).filter(|m| is_device_added(m)).len()
            == device_total(adapters),
    decreases adapters.len(),
{
    if adapters.len() > 0 {
        let front = announcement_of(plugin_id, package_name, adapters.drop_last());
        let last = adapters.last();
        let head = seq![add_adapter_event(plugin_id, package_name, last)];
        let rest = last.devices.map_values(
            |d: DeviceInfoView| device_added_event(plugin_id, last.id, d),
        );
        let adds = |m: PluginMessageView| is_add_adapter(m);
        let devs = |m: PluginMessageView| is_device_added(m);
        lemma_announcement_counts(plugin_id, package_name, adapters.drop_last());
        Seq::filter_distributes_over_add(front, head + rest, adds);
        Seq::filter_distributes_over_add(head, rest, adds);
        Seq::filter_distributes_over_add(front, head + rest, devs);
        Seq::filter_distributes_over_add(head, rest, devs);
        lemma_filter_all(head, adds);
        lemma_filter_none(rest, adds);
        lemma_filter_none(head, devs);
        lemma_filter_all(rest, devs);
    } else {
        reveal(Seq::filter);
    }
}

/// In an announcement every `HandleDeviceAdded` comes after the `AddAdapter`
/// of the adapter that the device belongs to.
pub proof fn lemma_adapter_announced_first(
    plugin_id: Seq<char>,
    package_name: Seq<char>,
    adapters: Seq<AdapterInfoView>,
    k: int,
)
    requires
        0 <= k < announcement_of(plugin_id, package_name, adapters).len(),
        is_device_added(announcement_of(plugin_id, package_name, adapters)[k]),
    ensures
        exists|j: int|
            0 <= j < k && is_add_adapter(
                #[trigger] announcement_of(plugin_id, package_name, adapters)[j],
            ) && announced_adapter(announcement_of(plugin_id, package_name, adapters)[j])
                == announced_adapter(announcement_of(plugin_id, package_name, adapters)[k]),
    decreases adapters.len(),
{
    let all = announcement_of(plugin_id, package_name, adapters);
    if adapters.len() > 0 {
        let front = announcement_of(plugin_id, package_name, adapters.drop_last());
        if k < front.len() {
            lemma_adapter_announced_first(plugin_id, package_name, adapters.drop_last(), k);
            let j = choose|j: int|
                0 <= j < k && is_add_adapter(#[trigger] front[j]) && announced_adapter(front[j])
                    == announced_adapter(front[k]);
            assert(all[j] == front[j]);
        } else {
            let j = front.len() as int;
            assert(is_add_adapter(all[j]));
        }
    }
}

/// Asks a device for what is announced of it.
pub fn device_info<D: Device>(id: &str, device: &D) -> (info: DeviceInfo)
    ensures
        info.id@ == id@,
{
    DeviceInfo {
        id: id.to_owned(),
        name: device.get_name(),
        typ: device.get_type(),
        properties: device.get_properties(),
        actions: device.get_actions(),
    }
}

/// Asks an adapter for what is announced of it and of each of its devices:
/// one report for each device that the adapter holds, in the adapter's order.
pub fn adapter_info<D: Device, A: Adapter<D>>(id: &str, adapter: &A) -> (info: AdapterInfo)
    ensures
        info.id@ == id@,
        reported_devices(info@) == adapter.devices().ids(),
{
    let name = adapter.get_name();
    let registry = adapter.get_devices();
    let mut devices: Vec<DeviceInfo> = Vec::new();
    let n = registry.len();
    let mut i: usize = 0;
    while i < n
        invariant
            i <= n,
            n == registry.ids().len(),
            devices@.len() == i,
            forall|j: int| 0 <= j < i ==> (#[trigger] devices@[j]).id@ == registry.ids()[j],
        decreases n - i,
    {
        devices.push(device_info(registry.id_at(i), registry.item_at(i)));
        i += 1;
    }
    let info = AdapterInfo { id: id.to_owned(), name, devices };
    proof {
        assert(reported_devices(info@) =~= registry.ids());
    }
    info
}

/// The events that announce `adapters` on behalf of the plugin `plugin_id`:
/// for each adapter one `AddAdapter`, followed by one `HandleDeviceAdded` for
/// each of its devices.
pub fn announcement(plugin_id: &str, package_name: &str, adapters: &Vec<AdapterInfo>) -> (events:
    Vec<PluginMessage>)
    ensures
        event_views(events@) == announcement_of(plugin_id@, package_name@, adapter_views(adapters@)),
{
    let mut events: Vec<PluginMessage> = Vec::new();
    let ghost all = adapter_views(adapters@);
    let mut i: usize = 0;
    while i < adapters.len()
        invariant
            i <= adapters.len(),
            all == adapter_views(adapters@),
            event_views(events@) == announcement_of(plugin_id@, package_name@, all.take(i as int)),
        decreases adapters.len() - i,
    {
        let adapter = &adapters[i];
        let ghost before = event_views(events@);
        let ghost a = adapter@;
        events.push(
            PluginMessage::AddAdapter {
                plugin_id: plugin_id.to_owned(),
                adapter_id: adapter.id.clone(),
                name: adapter.name.clone(),
                package_name: package_name.to_owned(),
            },
        );
        let mut j: usize = 0;
        while j < adapter.devices.len()
            invariant
                j <= adapter.devices.len(),
                a == adapter@,
                event_views(events@) == before + seq![
                    add_adapter_event(plugin_id@, package_name@, a),
                ] + a.devices.take(j as int).map_values(
                    |d: DeviceInfoView| device_added_event(plugin_id@, a.id, d),
                ),
            decreases adapter.devices.len() - j,
        {
            let device = &adapter.devices[j];
            let ghost sofar = event_views(events@);
            let properties = device.properties.clone();
            let actions = device.actions.clone();
            proof {
                use_type_invariant(&device.properties);
                use_type_invariant(&device.actions);
                lemma_cloned_properties(device.properties, properties);
                lemma_cloned_actions(device.actions, actions);
            }
            events.push(
                PluginMessage::HandleDeviceAdded {
                    plugin_id: plugin_id.to_owned(),
                    adapter_id: adapter.id.clone(),
                    id: device.id.clone(),
                    name: device.name.clone(),
                    typ: device.typ.clone(),
                    properties,
                    actions,
                },
            );
            proof {
                let d = a.devices[j as int];
                assert(event_views(events@) =~= sofar.push(
                    device_added_event(plugin_id@, a.id, d),
                ));
            }
            j += 1;
        }
        proof {
            assert(all.take(i + 1).drop_last() =~= all.take(i as int));
        }
        i += 1;
    }
    proof {
        assert(all.take(adapters.len() as int) =~= all);
    }
    events
}

} // verus!
