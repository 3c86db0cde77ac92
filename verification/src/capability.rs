//! What an integration implements to be driven by the router: devices, and
//! adapters that group them.

use vstd::prelude::*;
use crate::error::{GatewayError, GatewayErrorView};
use crate::message::{ActionDescription, Property, PropertyDescription, PropertyView};
use crate::registry::Registry;

verus! {

/// The outcome of setting a property, as contracts see it.
pub open spec fn property_outcome(r: Result<Property, GatewayError>) -> Result<
    PropertyView,
    GatewayErrorView,
> {
    match r {
        Ok(p) => Ok(p@),
        Err(e) => Err(e@),
    }
}

/// The outcome of an operation that only acknowledges, as contracts see it.
pub open spec fn plain_outcome(r: Result<(), GatewayError>) -> Result<(), GatewayErrorView> {
    match r {
        Ok(_) => Ok(()),
        Err(e) => Err(e@),
    }
}

/// The name of a device that does not name itself.
pub fn unknown_device_name() -> (s: String)
    ensures
        s@ == "Unknown Device"@,
{
    "Unknown Device".to_owned()
}

/// The type of a device that does not state one.
pub fn unknown_device_type() -> (s: String)
    ensures
        s@ == "thing"@,
{
    "thing".to_owned()
}

/// The name of an adapter that does not name itself.
pub fn unknown_adapter_name() -> (s: String)
    ensures
        s@ == "Unknown Adapter"@,
{
    "Unknown Adapter".to_owned()
}

/// One controllable entity.
///
/// The two `*_step` predicates are the implementor's own account of what a
/// call of the operation may do to the device and return. An implementation
/// that states none admits every outcome. The router's contracts are stated
/// over them, so they say exactly which calls were made.
pub trait Device {
    /// Whether `set_property` with `property` may take the device from `pre`
    /// to `post` and return `outcome`.
    open spec fn set_property_step(
        pre: &Self,
        property: PropertyView,
        post: &Self,
        outcome: Result<PropertyView, GatewayErrorView>,
    ) -> bool {
        true
    }

    /// Whether `request_action` with `name` may take the device from `pre` to
    /// `post` and return `outcome`.
    open spec fn request_action_step(
        pre: &Self,
        name: Seq<char>,
        post: &Self,
        outcome: Result<(), GatewayErrorView>,
    ) -> bool {
        true
    }

    /// Applies a new value and returns the property as the device now holds
    /// it, or the reason why the value was refused.
    fn set_property(&mut self, property: Property) -> (r: Result<Property, GatewayError>)
        ensures
            Self::set_property_step(old(self), property@, final(self), property_outcome(r)),
    ;

    /// Invokes the action `name`. `Ok` acknowledges the request only.
    fn request_action(&mut self, name: String) -> (r: Result<(), GatewayError>)
        ensures
            Self::request_action_step(old(self), name@, final(self), plain_outcome(r)),
    ;

    /// The display name; "Unknown Device" unless the implementation says
    /// otherwise.
    fn get_name(&self) -> (name: String)
        default_ensures
            name@ == "Unknown Device"@,
    {
        unknown_device_name()
    }

    /// The classification tag; "thing" unless the implementation says
    /// otherwise.
    fn get_type(&self) -> (typ: String)
        default_ensures
            typ@ == "thing"@,
    {
        unknown_device_type()
    }

    /// The actions on offer, by name; none unless the implementation says
    /// otherwise.
    fn get_actions(&self) -> (actions: Registry<ActionDescription>)
        default_ensures
            actions.ids() == Seq::<Seq<char>>::empty(),
            actions.items() == Seq::<ActionDescription>::empty(),
    {
        Registry::new()
    }

    /// The properties, by name; none unless the implementation says
    /// otherwise.
    fn get_properties(&self) -> (properties: Registry<PropertyDescription>)
        default_ensures
            properties.ids() == Seq::<Seq<char>>::empty(),
            properties.items() == Seq::<PropertyDescription>::empty(),
    {
        Registry::new()
    }
}

/// A group of devices that share one integration.
///
/// As with [`Device`], the `*_step` predicates are the implementor's account
/// of what one call may do.
pub trait Adapter<T: Device> {
    /// Whether `start_pairing` may take the adapter from `pre` to `post` and
    /// return `outcome`.
    open spec fn start_pairing_step(
        pre: &Self,
        post: &Self,
        outcome: Result<(), GatewayErrorView>,
    ) -> bool {
        true
    }

    /// Whether `cancel_pairing` may take the adapter from `pre` to `post` and
    /// return `outcome`.
    open spec fn cancel_pairing_step(
        pre: &Self,
        post: &Self,
        outcome: Result<(), GatewayErrorView>,
    ) -> bool {
        true
    }

    /// Whether `set_property` for `device_id` with `property` may take the
    /// adapter from `pre` to `post` and return `outcome`.
    open spec fn set_property_step(
        pre: &Self,
        device_id: Seq<char>,
        property: PropertyView,
        post: &Self,
        outcome: Result<PropertyView, GatewayErrorView>,
    ) -> bool {
        true
    }

    /// Whether `request_action` for `device_id` with `name` may take the
    /// adapter from `pre` to `post` and return `outcome`.
    open spec fn request_action_step(
        pre: &Self,
        device_id: Seq<char>,
        name: Seq<char>,
        post: &Self,
        outcome: Result<(), GatewayErrorView>,
    ) -> bool {
        true
    }

    /// The devices that the adapter holds, by device id.
    open spec fn devices(&self) -> Registry<T> {
        arbitrary()
    }

    /// The display name; "Unknown Adapter" unless the implementation says
    /// otherwise.
    fn get_name(&self) -> (name: String)
        default_ensures
            name@ == "Unknown Adapter"@,
    {
        unknown_adapter_name()
    }

    /// The devices of this adapter, by device id.
    fn get_devices(&self) -> (devices: &Registry<T>)
        ensures
            *devices == self.devices(),
    ;

    /// Enters discovery mode, where the integration has one.
    fn start_pairing(&mut self) -> (r: Result<(), GatewayError>)
        ensures
            Self::start_pairing_step(old(self), final(self), plain_outcome(r)),
    ;

    /// Leaves discovery mode.
    fn cancel_pairing(&mut self) -> (r: Result<(), GatewayError>)
        ensures
            Self::cancel_pairing_step(old(self), final(self), plain_outcome(r)),
    ;

    /// Sets a property of the device `device_id`.
    fn set_property(&mut self, device_id: &str, property: Property) -> (r: Result<
        Property,
        GatewayError,
    >)
        ensures
            Self::set_property_step(
                old(self),
                device_id@,
                property@,
                final(self),
                property_outcome(r),
            ),
    ;

    /// Invokes the action `name` of the device `device_id`.
    fn request_action(&mut self, device_id: &str, name: String) -> (r: Result<(), GatewayError>)
        ensures
            Self::request_action_step(old(self), device_id@, name@, final(self), plain_outcome(r)),
    ;
}

/// The error for a device id that an adapter does not know.
pub open spec fn device_not_found() -> GatewayErrorView {
    GatewayErrorView { kind: crate::error::ErrorKind::NotFound, message: "Device not found"@ }
}

/// Looks `device_id` up among `devices` and has that device set the property.
/// Where the id is not registered, nothing is called and the error is
/// `NotFound`.
pub fn set_device_property<T: Device>(
    devices: &mut Registry<T>,
    device_id: &str,
    property: Property,
) -> (r: Result<Property, GatewayError>)
    ensures
        final(devices).ids() == old(devices).ids(),
        !old(devices).has(device_id@) ==> {
            &&& final(devices).items() == old(devices).items()
            &&& property_outcome(r) == Err::<PropertyView, GatewayErrorView>(device_not_found())
        },
        old(devices).has(device_id@) ==> {
            let i = old(devices).position(device_id@);
            &&& final(devices).items() == old(devices).items().update(i, final(devices).items()[i])
            &&& T::set_property_step(
                &old(devices).items()[i],
                property@,
                &final(devices).items()[i],
                property_outcome(r),
            )
        },
{
    proof {
        use_type_invariant(&*devices);
    }
    match devices.index_of(device_id) {
        Some(i) => devices.item_at_mut(i).set_property(property),
        None => Err(GatewayError::not_found("Device not found")),
    }
}

/// Looks `device_id` up among `devices` and has that device run the action.
/// Where the id is not registered, nothing is called and the error is
/// `NotFound`.
pub fn request_device_action<T: Device>(devices: &mut Registry<T>, device_id: &str, name: String) -> (r:
    Result<(), GatewayError>)
    ensures
        final(devices).ids() == old(devices).ids(),
        !old(devices).has(device_id@) ==> {
            &&& final(devices).items() == old(devices).items()
            &&& plain_outcome(r) == Err::<(), GatewayErrorView>(device_not_found())
        },
        old(devices).has(device_id@) ==> {
            let i = old(devices).position(device_id@);
            &&& final(devices).items() == old(devices).items().update(i, final(devices).items()[i])
            &&& T::request_action_step(
                &old(devices).items()[i],
                name@,
                &final(devices).items()[i],
                plain_outcome(r),
            )
        },
{
    proof {
        use_type_invariant(&*devices);
    }
    match devices.index_of(device_id) {
        Some(i) => devices.item_at_mut(i).request_action(name),
        None => Err(GatewayError::not_found("Device not found")),
    }
}

} // verus!
