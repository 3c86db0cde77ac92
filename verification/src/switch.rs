//! The state of an on/off switch: what it reports of its properties and the
//! values it holds.

use vstd::prelude::*;
use vstd::string::StringExecFns;
use serde_json::Value;
use crate::json::{json_model, value_from_bool, Json};
use crate::message::{
    lemma_cloned_properties, property_map, Property, PropertyDescription, PropertyDescriptionView,
};
use crate::registry::{keyed, lemma_keyed_put, Registry};

verus! {

/// The values of a registry of JSON values, by name.
pub open spec fn value_map(r: Registry<Value>) -> Map<Seq<char>, Json> {
    keyed(r.ids(), r.items().map_values(|v: Value| json_model(v)))
}

/// What a switch reports of its property `on`: a visible boolean, reported
/// as switched on.
pub open spec fn on_description() -> PropertyDescriptionView {
    PropertyDescriptionView {
        name: "on"@,
        value: Json::Bool(true),
        typ: "boolean"@,
        unit: None,
        description: None,
        min: None,
        max: None,
        visible: true,
    }
}

/// The id of the one device of the adapter `adapter_id`.
pub fn first_device_id(adapter_id: &str) -> (id: String)
    ensures
        id@ == adapter_id@ + "-0"@,
{
    let mut id = adapter_id.to_owned();
    id.append("-0");
    id
}

/// The property descriptions and the property values of a switch.
#[derive(Debug)]
pub struct SwitchState {
    prop_descrs: Registry<PropertyDescription>,
    props: Registry<Value>,
}

impl SwitchState {
    /// What the switch reports of its properties, by name.
    pub closed spec fn descriptions(&self) -> Map<Seq<char>, PropertyDescriptionView> {
        property_map(self.prop_descrs)
    }

    /// The values that the switch holds, by property name.
    pub closed spec fn values(&self) -> Map<Seq<char>, Json> {
        value_map(self.props)
    }

    /// A switch with the one property `on`, switched on.
    pub fn new() -> (s: SwitchState)
        ensures
            s.values() == Map::<Seq<char>, Json>::empty().insert("on"@, Json::Bool(true)),
            s.descriptions() == Map::<Seq<char>, PropertyDescriptionView>::empty().insert(
                "on"@,
                on_description(),
            ),
    {
        let mut props: Registry<Value> = Registry::new();
        let mut prop_descrs: Registry<PropertyDescription> = Registry::new();
        let on = value_from_bool(true);
        let description = PropertyDescription {
            name: "on".to_owned(),
            value: value_from_bool(true),
            typ: "boolean".to_owned(),
            unit: None,
            description: None,
            min: None,
            max: None,
            visible: true,
        };
        proof {
            let none = Seq::<Seq<char>>::empty();
            lemma_keyed_put(none, Seq::<Json>::empty(), "on"@, json_model(on));
            lemma_keyed_put(none, Seq::<PropertyDescriptionView>::empty(), "on"@, description@);
            assert(Seq::<Value>::empty().push(on).map_values(|v: Value| json_model(v))
                =~= Seq::<Json>::empty().push(json_model(on)));
            assert(Seq::<PropertyDescription>::empty().push(description).map_values(
                |d: PropertyDescription| d@,
            ) =~= Seq::<PropertyDescriptionView>::empty().push(description@));
        }
        let _ = props.insert("on".to_owned(), on);
        let _ = prop_descrs.insert("on".to_owned(), description);
        SwitchState { prop_descrs, props }
    }

    /// Records the value of `property` as the value that the switch now
    /// holds under the property's name.
    pub fn apply(&mut self, property: &Property)
        ensures
            final(self).values() == old(self).values().insert(property@.name, property@.value),
            final(self).descriptions() == old(self).descriptions(),
    {
        proof {
            use_type_invariant(&self.props);
            let ids = self.props.ids();
            let values = self.props.items().map_values(|v: Value| json_model(v));
            lemma_keyed_put(ids, values, property@.name, property@.value);
        }
        let value = property.value.clone();
        let _ = self.props.insert(property.name.clone(), value);
    }

    /// What the switch reports of its properties.
    pub fn get_properties(&self) -> (r: Registry<PropertyDescription>)
        ensures
            property_map(r) == self.descriptions(),
    {
        let r = self.prop_descrs.clone();
        proof {
            use_type_invariant(&self.prop_descrs);
            lemma_cloned_properties(self.prop_descrs, r);
        }
        r
    }

    /// The value held under the property `name`, if the switch has it.
    pub fn value(&self, name: &str) -> (r: Option<&Value>)
        ensures
            match r {
                Some(v) => self.values().contains_key(name@) && self.values()[name@] == json_model(
                    *v,
                ),
                None => !self.values().contains_key(name@),
            },
    {
        let r = self.props.get(name);
        proof {
            use_type_invariant(&self.props);
        }
        r
    }
}

} // verus!
