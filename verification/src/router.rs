//! The plugin: the adapters it represents, and the dispatch of gateway
//! commands to them.

use vstd::prelude::*;
use crate::capability::{Adapter, Device};
use crate::error::{ErrorKind, GatewayError, GatewayErrorView};
use crate::announce::{
    adapter_info, adapter_views, announcement, announcement_of, device_total, event_views,
    is_add_adapter, is_device_added, lemma_announcement_counts, reported_devices, AdapterInfo,
    AdapterInfoView,
};
use crate::message::{
    GatewayMessage, GatewayMessageView, PluginMessage, PluginMessageView, Property, PropertyView,
};
use crate::registry::Registry;

verus! {

/// One plugin and its adapters.
pub struct Plugin<D: Device, A: Adapter<D>> {
    package_name: String,
    plugin_id: String,
    adapters: Registry<A>,
    _marker: core::marker::PhantomData<D>,
}

/// The error for a command that names an adapter the plugin does not have.
pub open spec fn adapter_not_found() -> GatewayErrorView {
    GatewayErrorView { kind: ErrorKind::NotFound, message: "Adapter not found"@ }
}

/// The adapter that a command is dispatched to. Commands that only announce a
/// teardown are acknowledged without one.
pub open spec fn target(msg: GatewayMessageView) -> Option<Seq<char>> {
    match msg {
        GatewayMessageView::SetProperty { adapter_id, .. } => Some(adapter_id),
        GatewayMessageView::RequestAction { adapter_id, .. } => Some(adapter_id),
        GatewayMessageView::StartPairing { adapter_id, .. } => Some(adapter_id),
        GatewayMessageView::CancelPairing { adapter_id, .. } => Some(adapter_id),
        _ => None,
    }
}

/// Whether `r` is the router's answer to `msg` after exactly one call of the
/// operation that `msg` asks for, with the arguments that `msg` carries, which
/// took the adapter from `pre` to `post`.
pub open spec fn performed<D: Device, A: Adapter<D>>(
    msg: GatewayMessageView,
    pre: &A,
    post: &A,
    r: Result<Option<PluginMessage>, GatewayError>,
) -> bool {
    match msg {
        GatewayMessageView::SetProperty {
            plugin_id,
            adapter_id,
            device_id,
            property_name,
            property_value,
        } => {
            let asked = PropertyView { name: property_name, value: property_value };
            match r {
                Ok(Some(event)) => event@ matches PluginMessageView::PropertyChanged {
                    plugin_id: p,
                    adapter_id: a,
                    device_id: d,
                    property: applied,
                } && p == plugin_id && a == adapter_id && d == device_id && A::set_property_step(
                    pre,
                    device_id,
                    asked,
                    post,
                    Ok(applied),
                ),
                Ok(None) => false,
                Err(e) => A::set_property_step(pre, device_id, asked, post, Err(e@)),
            }
        },
        GatewayMessageView::RequestAction { device_id, action_name, .. } => match r {
            Ok(Some(_)) => false,
            Ok(None) => A::request_action_step(pre, device_id, action_name, post, Ok(())),
            Err(e) => A::request_action_step(pre, device_id, action_name, post, Err(e@)),
        },
        GatewayMessageView::StartPairing { .. } => match r {
            Ok(Some(_)) => false,
            Ok(None) => A::start_pairing_step(pre, post, Ok(())),
            Err(e) => A::start_pairing_step(pre, post, Err(e@)),
        },
        GatewayMessageView::CancelPairing { .. } => match r {
            Ok(Some(_)) => false,
            Ok(None) => A::cancel_pairing_step(pre, post, Ok(())),
            Err(e) => A::cancel_pairing_step(pre, post, Err(e@)),
        },
        _ => false,
    }
}

/// The event that reports a property as the device applied it, or the
/// device's error handed on.
pub fn property_changed(
    plugin_id: String,
    adapter_id: String,
    device_id: String,
    outcome: Result<Property, GatewayError>,
) -> (r: Result<Option<PluginMessage>, GatewayError>)
    ensures
        match outcome {
            Ok(property) => r == Ok::<Option<PluginMessage>, GatewayError>(
                Some(PluginMessage::PropertyChanged { plugin_id, adapter_id, device_id, property }),
            ),
            Err(e) => r == Err::<Option<PluginMessage>, GatewayError>(e),
        },
{
    match outcome {
        Ok(property) => Ok(
            Some(PluginMessage::PropertyChanged { plugin_id, adapter_id, device_id, property }),
        ),
        Err(e) => Err(e),
    }
}

/// An acknowledgement without an event, or the error handed on.
pub fn acknowledged(outcome: Result<(), GatewayError>) -> (r: Result<
    Option<PluginMessage>,
    GatewayError,
>)
    ensures
        match outcome {
            Ok(_) => r == Ok::<Option<PluginMessage>, GatewayError>(None),
            Err(e) => r == Err::<Option<PluginMessage>, GatewayError>(e),
        },
{
    match outcome {
        Ok(_) => Ok(None),
        Err(e) => Err(e),
    }
}

/// What the caller's loop does after one turn of the router.
#[derive(Debug)]
pub enum RouterAction {
    /// No command was waiting: pause, then poll again.
    Idle,
    /// The command was handled and calls for no event.
    Proceed,
    /// Send the event to the gateway.
    Emit(PluginMessage),
    /// The command failed: report the error and go on.
    Report(GatewayError),
    /// The command failed: leave the loop with the error.
    Abort(GatewayError),
}

/// The action that follows a handled command: `fatal` says whether an error
/// of this command ends the loop.
pub open spec fn action_for(
    fatal: bool,
    r: Result<Option<PluginMessage>, GatewayError>,
) -> RouterAction {
    match r {
        Ok(None) => RouterAction::Proceed,
        Ok(Some(event)) => RouterAction::Emit(event),
        Err(e) => if fatal {
            RouterAction::Abort(e)
        } else {
            RouterAction::Report(e)
        },
    }
}

/// The action that follows a handled command: `fatal` says whether an error
/// of this command ends the loop.
pub fn next_action(fatal: bool, r: Result<Option<PluginMessage>, GatewayError>) -> (action:
    RouterAction)
    ensures
        action == action_for(fatal, r),
{
    match r {
        Ok(None) => RouterAction::Proceed,
        Ok(Some(event)) => RouterAction::Emit(event),
        Err(e) => if fatal {
            RouterAction::Abort(e)
        } else {
            RouterAction::Report(e)
        },
    }
}

impl<D: Device, A: Adapter<D>> Plugin<D, A> {
    /// The identifier by which the gateway addresses this plugin.
    pub closed spec fn id(&self) -> Seq<char> {
        self.plugin_id@
    }

    /// The package name reported to the gateway.
    pub closed spec fn package(&self) -> Seq<char> {
        self.package_name@
    }

    /// The adapters, by adapter id.
    pub closed spec fn adapters(&self) -> Registry<A> {
        self.adapters
    }

    /// Whether the plugin acts on `msg`: it is addressed to this plugin and is
    /// of a kind that is dispatched to an adapter.
    pub open spec fn acts_on(&self, msg: GatewayMessageView) -> bool {
        msg.plugin_id() == self.id() && target(msg) is Some
    }

    /// Whether handling `msg` may take the plugin from `self` to `post` and
    /// return `r`.
    ///
    /// A command for another plugin, or one that only announces a teardown,
    /// changes nothing and is answered with `Ok(None)`. A command for an
    /// adapter that is not registered changes nothing and is answered with
    /// `NotFound`. Any other command is one call on the adapter it names; no
    /// other adapter changes.
    pub open spec fn handled(
        &self,
        msg: GatewayMessageView,
        post: &Self,
        r: Result<Option<PluginMessage>, GatewayError>,
    ) -> bool {
        &&& post.id() == self.id()
        &&& post.package() == self.package()
        &&& post.adapters().ids() == self.adapters().ids()
        &&& if !self.acts_on(msg) {
            &&& r == Ok::<Option<PluginMessage>, GatewayError>(None)
            &&& post.adapters().items() == self.adapters().items()
        } else if !self.adapters().has(target(msg)->0) {
            &&& r matches Err(e)
            &&& e@ == adapter_not_found()
            &&& post.adapters().items() == self.adapters().items()
        } else {
            let i = self.adapters().position(target(msg)->0);
            &&& post.adapters().items() == self.adapters().items().update(
                i,
                post.adapters().items()[i],
            )
            &&& performed::<D, A>(msg, &self.adapters().items()[i], &post.adapters().items()[i], r)
        }
    }

    /// A plugin without adapters.
    pub fn new(package_name: &str, plugin_id: &str) -> (p: Self)
        ensures
            p.id() == plugin_id@,
            p.package() == package_name@,
            p.adapters().ids() == Seq::<Seq<char>>::empty(),
            p.adapters().items() == Seq::<A>::empty(),
    {
        Plugin {
            package_name: package_name.to_owned(),
            plugin_id: plugin_id.to_owned(),
            adapters: Registry::new(),
            _marker: core::marker::PhantomData,
        }
    }

    /// The identifier by which the gateway addresses this plugin.
    pub fn plugin_id(&self) -> (id: &str)
        ensures
            id@ == self.id(),
    {
        self.plugin_id.as_str()
    }

    /// The package name reported to the gateway.
    pub fn package_name(&self) -> (name: &str)
        ensures
            name@ == self.package(),
    {
        self.package_name.as_str()
    }

    /// The number of adapters.
    pub fn adapter_count(&self) -> (n: usize)
        ensures
            n == self.adapters().ids().len(),
    {
        self.adapters.len()
    }

    /// Registers `adapter` under `adapter_id`. An adapter registered under
    /// that id before is replaced where it stood; otherwise the adapter is
    /// added after the others.
    pub fn add_adapter(&mut self, adapter_id: &str, adapter: Box<A>)
        ensures
            final(self).id() == old(self).id(),
            final(self).package() == old(self).package(),
            old(self).adapters().has(adapter_id@) ==> {
                &&& final(self).adapters().ids() == old(self).adapters().ids()
                &&& final(self).adapters().items() == old(self).adapters().items().update(
                    old(self).adapters().position(adapter_id@),
                    *adapter,
                )
            },
            !old(self).adapters().has(adapter_id@) ==> {
                &&& final(self).adapters().ids() == old(self).adapters().ids().push(adapter_id@)
                &&& final(self).adapters().items() == old(self).adapters().items().push(*adapter)
            },
    {
        let _ = self.adapters.insert(adapter_id.to_owned(), *adapter);
    }

    /// Handles one command from the gateway.
    ///
    /// Returns the event to send to the gateway, if the command calls for
    /// one, or the error that the command ended in.
    pub fn handle_msg(&mut self, msg: GatewayMessage) -> (r: Result<
        Option<PluginMessage>,
        GatewayError,
    >)
        ensures
            old(self).handled(msg@, final(self), r),
    {
        proof {
            use_type_invariant(&self.adapters);
        }
        match msg {
            GatewayMessage::SetProperty {
                plugin_id,
                adapter_id,
                device_id,
                property_name,
                property_value,
            } => {
                if plugin_id != self.plugin_id {
                    return Ok(None);
                }
                match self.adapters.index_of(adapter_id.as_str()) {
                    Some(i) => {
                        let property = Property { name: property_name, value: property_value };
                        let outcome = self.adapters.item_at_mut(i).set_property(
                            device_id.as_str(),
                            property,
                        );
                        property_changed(plugin_id, adapter_id, device_id, outcome)
                    },
                    None => Err(GatewayError::not_found("Adapter not found")),
                }
            },
            GatewayMessage::RequestAction {
                plugin_id,
                adapter_id,
                device_id,
                action_id: _,
                action_name,
                input: _,
            } => {
                if plugin_id != self.plugin_id {
                    return Ok(None);
                }
                match self.adapters.index_of(adapter_id.as_str()) {
                    Some(i) => acknowledged(
                        self.adapters.item_at_mut(i).request_action(device_id.as_str(), action_name),
                    ),
                    None => Err(GatewayError::not_found("Adapter not found")),
                }
            },
            GatewayMessage::StartPairing { plugin_id, adapter_id, timeout: _ } => {
                if plugin_id != self.plugin_id {
                    return Ok(None);
                }
                match self.adapters.index_of(adapter_id.as_str()) {
                    Some(i) => acknowledged(self.adapters.item_at_mut(i).start_pairing()),
                    None => Err(GatewayError::not_found("Adapter not found")),
                }
            },
            GatewayMessage::CancelPairing { plugin_id, adapter_id } => {
                if plugin_id != self.plugin_id {
                    return Ok(None);
                }
                match self.adapters.index_of(adapter_id.as_str()) {
                    Some(i) => acknowledged(self.adapters.item_at_mut(i).cancel_pairing()),
                    None => Err(GatewayError::not_found("Adapter not found")),
                }
            },
            GatewayMessage::UnloadPlugin { .. } => Ok(None),
            GatewayMessage::UnloadAdapter { .. } => Ok(None),
            GatewayMessage::RemoveThing { .. } => Ok(None),
            GatewayMessage::CancelRemoveThing { .. } => Ok(None),
        }
    }
    /// Whether `infos` can be what the adapters report of themselves: one
    /// report for each adapter, under the adapter's id, in the order of
    /// registration, and in it one report for each device of the adapter,
    /// under the device's id, in the adapter's order.
    pub open spec fn reported_by(&self, infos: Seq<AdapterInfoView>) -> bool {
        &&& infos.len() == self.adapters().ids().len()
        &&& forall|i: int|
            0 <= i < infos.len() ==> {
                &&& (#[trigger] infos[i]).id == self.adapters().ids()[i]
                &&& reported_devices(infos[i]) == self.adapters().items()[i].devices().ids()
            }
    }

    /// Asks every adapter for what is announced of it.
    pub fn describe(&self) -> (infos: Vec<AdapterInfo>)
        ensures
            self.reported_by(adapter_views(infos@)),
    {
        let mut infos: Vec<AdapterInfo> = Vec::new();
        let n = self.adapters.len();
        let mut i: usize = 0;
        while i < n
            invariant
                i <= n,
                n == self.adapters().ids().len(),
                infos@.len() == i,
                forall|j: int|
                    0 <= j < i ==> {
                        &&& (#[trigger] infos@[j]).id@ == self.adapters().ids()[j]
                        &&& reported_devices(infos@[j]@) == self.adapters().items()[j].devices().ids()
                    },
            decreases n - i,
        {
            infos.push(adapter_info(self.adapters.id_at(i), self.adapters.item_at(i)));
            i += 1;
        }
        infos
    }

    /// The events that announce the plugin's adapters and their devices to
    /// the gateway, as the adapters report them now.
    pub fn announce(&self) -> (events: Vec<PluginMessage>)
        ensures
            exists|infos: Seq<AdapterInfoView>|
                self.reported_by(infos) && event_views(events@) == #[trigger] announcement_of(
                    self.id(),
                    self.package(),
                    infos,
                ),
    {
        let infos = self.describe();
        let events = announcement(self.plugin_id.as_str(), self.package_name.as_str(), &infos);
        proof {
            let reported = adapter_views(infos@);
            assert(self.reported_by(reported));
            assert(event_views(events@) == announcement_of(self.id(), self.package(), reported));
        }
        events
    }

    /// One turn of the router's loop: `inbound` is the next command, or
    /// `None` where none has arrived.
    ///
    /// Without a command the router idles. A command is handled; an error
    /// ends the loop where the command was `SetProperty` and is reported
    /// otherwise.
    pub fn step(&mut self, inbound: Option<GatewayMessage>) -> (action: RouterAction)
        ensures
            match inbound {
                None => action is Idle && *final(self) == *old(self),
                Some(msg) => exists|r: Result<Option<PluginMessage>, GatewayError>| #[trigger]
                    old(self).handled(msg@, final(self), r) && action == action_for(
                        msg@ is SetProperty,
                        r,
                    ),
            },
    {
        match inbound {
            None => RouterAction::Idle,
            Some(msg) => {
                let fatal = msg.is_set_property();
                let r = self.handle_msg(msg);
                next_action(fatal, r)
            },
        }
    }
}

/// A command addressed to another plugin is not dispatched and yields no
/// event, whatever its kind: the answer is `Ok(None)`, the action that
/// follows is `Proceed`, and every adapter stays as it was.
pub proof fn lemma_filtering<D: Device, A: Adapter<D>>(
    pre: Plugin<D, A>,
    msg: GatewayMessageView,
    post: Plugin<D, A>,
    r: Result<Option<PluginMessage>, GatewayError>,
)
    requires
        pre.handled(msg, &post, r),
        msg.plugin_id() != pre.id(),
    ensures
        r == Ok::<Option<PluginMessage>, GatewayError>(None),
        action_for(msg is SetProperty, r) == RouterAction::Proceed,
        post.adapters().ids() == pre.adapters().ids(),
        post.adapters().items() == pre.adapters().items(),
{
}

/// `SetProperty` for an adapter that is registered is one call of
/// `set_property` on that adapter, with the device id, the name and the value
/// of the command. If the call returns a property, the answer is exactly one
/// `PropertyChanged` event that carries that property; if it returns an
/// error, the answer is that error and no event. No other adapter changes.
/// For an adapter that is not registered the answer is `NotFound`, no event,
/// and nothing changes.
pub proof fn lemma_set_property_dispatch<D: Device, A: Adapter<D>>(
    pre: Plugin<D, A>,
    msg: GatewayMessageView,
    post: Plugin<D, A>,
    r: Result<Option<PluginMessage>, GatewayError>,
)
    requires
        pre.adapters().wf(),
        pre.handled(msg, &post, r),
        msg is SetProperty,
        msg.plugin_id() == pre.id(),
    ensures
        !pre.adapters().has(msg->SetProperty_adapter_id) ==> {
            &&& r matches Err(e)
            &&& e@ == adapter_not_found()
            &&& post.adapters().items() == pre.adapters().items()
        },
        pre.adapters().has(msg->SetProperty_adapter_id) ==> {
            let i = pre.adapters().position(msg->SetProperty_adapter_id);
            let asked = PropertyView {
                name: msg->SetProperty_property_name,
                value: msg->SetProperty_property_value,
            };
            &&& 0 <= i < pre.adapters().items().len()
            &&& forall|j: int|
                0 <= j < pre.adapters().items().len() && j != i ==> post.adapters().items()[j]
                    == pre.adapters().items()[j]
            &&& match r {
                Ok(Some(event)) => event@ matches PluginMessageView::PropertyChanged {
                    plugin_id,
                    adapter_id,
                    device_id,
                    property,
                } && plugin_id == msg.plugin_id() && adapter_id == msg->SetProperty_adapter_id
                    && device_id == msg->SetProperty_device_id && A::set_property_step(
                    &pre.adapters().items()[i],
                    msg->SetProperty_device_id,
                    asked,
                    &post.adapters().items()[i],
                    Ok(property),
                ),
                Ok(None) => false,
                Err(e) => A::set_property_step(
                    &pre.adapters().items()[i],
                    msg->SetProperty_device_id,
                    asked,
                    &post.adapters().items()[i],
                    Err(e@),
                ),
            }
        },
{
    if pre.adapters().has(msg->SetProperty_adapter_id) {
        let i = pre.adapters().position(msg->SetProperty_adapter_id);
        assert(0 <= i < pre.adapters().ids().len());
    }
}

/// The number of devices that the adapters hold, all together.
pub open spec fn devices_held<D: Device, A: Adapter<D>>(adapters: Seq<A>) -> nat
    decreases adapters.len(),
{
    if adapters.len() == 0 {
        0
    } else {
        devices_held::<D, A>(adapters.drop_last()) + adapters.last().devices().ids().len()
    }
}

/// Reports that name each device of each adapter hold as many device reports
/// as the adapters hold devices.
proof fn lemma_reports_cover_devices<D: Device, A: Adapter<D>>(
    adapters: Seq<A>,
    infos: Seq<AdapterInfoView>,
)
    requires
        infos.len() == adapters.len(),
        forall|i: int|
            0 <= i < infos.len() ==> reported_devices(#[trigger] infos[i])
                == adapters[i].devices().ids(),
    ensures
        device_total(infos) == devices_held::<D, A>(adapters),
    decreases adapters.len(),
{
    if adapters.len() > 0 {
        lemma_reports_cover_devices::<D, A>(adapters.drop_last(), infos.drop_last());
        assert(reported_devices(infos.last()) == adapters.last().devices().ids());
    }
}

/// The announcement of a plugin with N adapters holds exactly N `AddAdapter`
/// events and one `HandleDeviceAdded` event for each device of each adapter,
/// and nothing else.
pub proof fn lemma_announcement_covers_plugin<D: Device, A: Adapter<D>>(
    plugin: Plugin<D, A>,
    infos: Seq<AdapterInfoView>,
)
    requires
        plugin.adapters().wf(),
        plugin.reported_by(infos),
    ensures
        announcement_of(plugin.id(), plugin.package(), infos).filter(|m| is_add_adapter(m)).len()
            == plugin.adapters().ids().len(),
        announcement_of(plugin.id(), plugin.package(), infos).filter(|m| is_device_added(m)).len()
            == devices_held::<D, A>(plugin.adapters().items()),
        announcement_of(plugin.id(), plugin.package(), infos).len() == plugin.adapters().ids().len()
            + devices_held::<D, A>(plugin.adapters().items()),
{
    lemma_announcement_counts(plugin.id(), plugin.package(), infos);
    lemma_reports_cover_devices::<D, A>(plugin.adapters().items(), infos);
}

} // verus!
