//! The records inside events on the wire: properties, property descriptions
//! and action descriptions, and the objects that hold them by name.

use vstd::prelude::*;
use serde_json::Value;
use crate::json::{
    any_member, bool_member, get_bool, get_optional_text, get_text, get_value, no_members,
    object_get, object_insert, object_keys, object_model, object_new, optional_text_member,
    put_bool, put_optional_text, put_text, put_value, text_member, value_as_object,
    value_from_object, with_optional_text, Json, Members,
};
use crate::message::{
    ActionDescription, ActionDescriptionView, Property, PropertyDescription,
    PropertyDescriptionView, PropertyView,
};
use crate::registry::{lemma_position, view_map, Registry};
use crate::wire::lemma_wire_names;

verus! {

/// A record that travels as a JSON object.
pub trait Record: View + Sized {
    /// The members of the object that holds the record.
    spec fn members(v: Self::V) -> Members;

    /// The record that an object with the members `m` holds, if it has every
    /// member of the record, each of the right kind.
    spec fn record(m: Members) -> Option<Self::V>;

    /// A record is read back from its members as it was.
    proof fn lemma_round_trip(v: Self::V)
        ensures
            Self::record(Self::members(v)) == Some(v),
    ;

    /// The record as the members of a JSON object.
    fn to_members(&self) -> (m: serde_json::Map<String, Value>)
        ensures
            object_model(m) == Self::members(self@),
    ;

    /// The record that the members hold, or `None` where they hold none.
    fn from_members(m: &serde_json::Map<String, Value>) -> (r: Option<Self>)
        ensures
            match r {
                Some(rec) => Self::record(object_model(*m)) == Some(rec@),
                None => Self::record(object_model(*m)) is None,
            },
    ;
}

impl Record for ActionDescription {
    open spec fn members(v: ActionDescriptionView) -> Members {
        no_members().insert("name"@, Json::Text(v.name))
    }

    open spec fn record(m: Members) -> Option<ActionDescriptionView> {
        match text_member(m, "name"@) {
            Some(name) => Some(ActionDescriptionView { name }),
            None => None,
        }
    }

    proof fn lemma_round_trip(v: ActionDescriptionView) {
    }

    fn to_members(&self) -> (m: serde_json::Map<String, Value>) {
        let mut m = object_new();
        put_text(&mut m, "name", self.name.as_str());
        m
    }

    fn from_members(m: &serde_json::Map<String, Value>) -> (r: Option<Self>) {
        match get_text(m, "name") {
            Some(name) => Some(ActionDescription { name }),
            None => None,
        }
    }
}

impl Record for Property {
    open spec fn members(v: PropertyView) -> Members {
        no_members().insert("name"@, Json::Text(v.name)).insert("value"@, v.value)
    }

    open spec fn record(m: Members) -> Option<PropertyView> {
        match (text_member(m, "name"@), any_member(m, "value"@)) {
            (Some(name), Some(value)) => Some(PropertyView { name, value }),
            _ => None,
        }
    }

    proof fn lemma_round_trip(v: PropertyView) {
        lemma_wire_names();
    }

    fn to_members(&self) -> (m: serde_json::Map<String, Value>) {
        let mut m = object_new();
        put_text(&mut m, "name", self.name.as_str());
        put_value(&mut m, "value", &self.value);
        m
    }

    fn from_members(m: &serde_json::Map<String, Value>) -> (r: Option<Self>) {
        match (get_text(m, "name"), get_value(m, "value")) {
            (Some(name), Some(value)) => Some(Property { name, value }),
            _ => None,
        }
    }
}

impl Record for PropertyDescription {
    /// The unit, the description and the bounds are written only where they
    /// are there.
    open spec fn members(v: PropertyDescriptionView) -> Members {
        let required = no_members().insert("name"@, Json::Text(v.name)).insert(
            "value"@,
            v.value,
        ).insert("type"@, Json::Text(v.typ));
        let unit = with_optional_text(required, "unit"@, v.unit);
        let description = with_optional_text(unit, "description"@, v.description);
        let min = with_optional_text(description, "min"@, v.min);
        let max = with_optional_text(min, "max"@, v.max);
        max.insert("visible"@, Json::Bool(v.visible))
    }

    /// The unit, the description and the bounds may be missing or null.
    open spec fn record(m: Members) -> Option<PropertyDescriptionView> {
        match (
            text_member(m, "name"@),
            any_member(m, "value"@),
            text_member(m, "type"@),
            optional_text_member(m, "unit"@),
            optional_text_member(m, "description"@),
            optional_text_member(m, "min"@),
            optional_text_member(m, "max"@),
            bool_member(m, "visible"@),
        ) {
            (
                Some(name),
                Some(value),
                Some(typ),
                Some(unit),
                Some(description),
                Some(min),
                Some(max),
                Some(visible),
            ) => Some(
                PropertyDescriptionView { name, value, typ, unit, description, min, max, visible },
            ),
            _ => None,
        }
    }

    proof fn lemma_round_trip(v: PropertyDescriptionView) {
        lemma_wire_names();
    }

    fn to_members(&self) -> (m: serde_json::Map<String, Value>) {
        let mut m = object_new();
        put_text(&mut m, "name", self.name.as_str());
        put_value(&mut m, "value", &self.value);
        put_text(&mut m, "type", self.typ.as_str());
        put_optional_text(&mut m, "unit", &self.unit);
        put_optional_text(&mut m, "description", &self.description);
        put_optional_text(&mut m, "min", &self.min);
        put_optional_text(&mut m, "max", &self.max);
        put_bool(&mut m, "visible", self.visible);
        m
    }

    fn from_members(m: &serde_json::Map<String, Value>) -> (r: Option<Self>) {
        match (
            get_text(m, "name"),
            get_value(m, "value"),
            get_text(m, "type"),
            get_optional_text(m, "unit"),
            get_optional_text(m, "description"),
            get_optional_text(m, "min"),
            get_optional_text(m, "max"),
            get_bool(m, "visible"),
        ) {
            (
                Some(name),
                Some(value),
                Some(typ),
                Some(unit),
                Some(description),
                Some(min),
                Some(max),
                Some(visible),
            ) => Some(
                PropertyDescription { name, value, typ, unit, description, min, max, visible },
            ),
            _ => None,
        }
    }
}

/// The document of one record.
pub open spec fn record_doc<T: Record>(v: T::V) -> Json {
    Json::Object(T::members(v))
}

/// The record that a document holds, if it is an object that holds one.
pub open spec fn record_from_doc<T: Record>(doc: Json) -> Option<T::V> {
    match doc {
        Json::Object(m) => T::record(m),
        _ => None,
    }
}

/// The members of the object that holds the records `entries`, each under
/// its name.
pub open spec fn table_members<T: Record>(entries: Map<Seq<char>, T::V>) -> Members {
    entries.map_values(|v: T::V| record_doc::<T>(v))
}

/// The records that the members `m` hold by name, if every member holds one.
pub open spec fn table_of<T: Record>(m: Members) -> Option<Map<Seq<char>, T::V>> {
    if forall|k: Seq<char>| m.contains_key(k) ==> (#[trigger] record_from_doc::<T>(m[k])) is Some {
        Some(m.map_values(|doc: Json| record_from_doc::<T>(doc)->0))
    } else {
        None
    }
}

/// Records by name are read back from their object as they were.
pub proof fn lemma_table_round_trip<T: Record>(entries: Map<Seq<char>, T::V>)
    ensures
        table_of::<T>(table_members::<T>(entries)) == Some(entries),
{
    let m = table_members::<T>(entries);
    assert forall|k: Seq<char>| m.contains_key(k) implies record_from_doc::<T>(m[k]) == Some(
        entries[k],
    ) by {
        T::lemma_round_trip(entries[k]);
    }
}

/// The members written for the first `i` entries of a registry.
pub open spec fn table_prefix<T: Record>(ids: Seq<Seq<char>>, items: Seq<T>, i: int) -> Members {
    Map::new(
        |k: Seq<char>| ids.take(i).contains(k),
        |k: Seq<char>| record_doc::<T>(items[ids.index_of(k)]@),
    )
}

/// Writing one more entry extends the prefix by that entry.
proof fn lemma_table_prefix_step<T: Record>(ids: Seq<Seq<char>>, items: Seq<T>, i: int)
    requires
        ids.no_duplicates(),
        ids.len() == items.len(),
        0 <= i < ids.len(),
    ensures
        table_prefix(ids, items, i + 1) == table_prefix(ids, items, i).insert(
            ids[i],
            record_doc::<T>(items[i]@),
        ),
{
    lemma_position(ids, i);
    let a = table_prefix(ids, items, i + 1);
    let b = table_prefix(ids, items, i).insert(ids[i], record_doc::<T>(items[i]@));
    assert forall|k: Seq<char>| a.contains_key(k) <==> b.contains_key(k) by {
        if k == ids[i] {
            assert(ids.take(i + 1)[i] == k);
        }
    }
}

/// The prefix of all entries is the table of the registry.
proof fn lemma_table_prefix_all<T: Record>(r: Registry<T>)
    requires
        r.wf(),
    ensures
        table_prefix(r.ids(), r.items(), r.ids().len() as int) == table_members::<T>(view_map(r)),
{
    let ids = r.ids();
    assert(ids.take(ids.len() as int) =~= ids);
}

/// The object that holds the records of a registry, each under its
/// identifier.
pub fn write_table<T: Record>(registry: &Registry<T>) -> (m: serde_json::Map<String, Value>)
    ensures
        object_model(m) == table_members::<T>(view_map(*registry)),
{
    let mut m = object_new();
    let n = registry.len();
    let mut i: usize = 0;
    while i < n
        invariant
            i <= n,
            n == registry.ids().len(),
            registry.wf(),
            object_model(m) == table_prefix(registry.ids(), registry.items(), i as int),
        decreases n - i,
    {
        let inner = registry.item_at(i).to_members();
        proof {
            lemma_table_prefix_step(registry.ids(), registry.items(), i as int);
        }
        object_insert(&mut m, registry.id_at(i).to_owned(), value_from_object(inner));
        i += 1;
    }
    proof {
        lemma_table_prefix_all(*registry);
    }
    m
}

/// The registry of the records that an object holds by name, in the order of
/// the names, or `None` where a member holds no record.
pub fn read_table<T: Record>(m: &serde_json::Map<String, Value>) -> (r: Option<Registry<T>>)
    ensures
        match r {
            Some(registry) => table_of::<T>(object_model(*m)) == Some(view_map(registry)),
            None => table_of::<T>(object_model(*m)) is None,
        },
{
    let keys = object_keys(m);
    let mut registry: Registry<T> = Registry::new();
    let ghost all = object_model(*m);
    let mut i: usize = 0;
    while i < keys.len()
        invariant
            i <= keys.len(),
            all == object_model(*m),
            forall|a: int, b: int| 0 <= a < b < keys@.len() ==> keys@[a]@ != keys@[b]@,
            forall|j: int| 0 <= j < keys@.len() ==> all.contains_key(#[trigger] keys@[j]@),
            registry.ids().len() == i,
            registry.items().len() == i,
            forall|j: int| 0 <= j < i ==> registry.ids()[j] == keys@[j]@,
            forall|j: int|
                0 <= j < i ==> record_from_doc::<T>(all[keys@[j]@]) == Some(
                    (#[trigger] registry.items()[j])@,
                ),
        decreases keys.len() - i,
    {
        let key = &keys[i];
        let found = match object_get(m, key.as_str()) {
            Some(doc) => match value_as_object(doc) {
                Some(inner) => T::from_members(inner),
                None => None,
            },
            None => None,
        };
        match found {
            Some(rec) => {
                let _ = registry.insert(key.clone(), rec);
            },
            None => {
                proof {
                    assert(record_from_doc::<T>(all[key@]) is None);
                }
                return None;
            },
        }
        i += 1;
    }
    proof {
        let got = view_map(registry);
        let want = all.map_values(|doc: Json| record_from_doc::<T>(doc)->0);
        use_type_invariant(&registry);
        assert forall|k: Seq<char>| all.contains_key(k) implies (#[trigger] record_from_doc::<T>(
            all[k],
        )) is Some by {
            let j = choose|j: int| 0 <= j < keys@.len() && #[trigger] keys@[j]@ == k;
            assert(record_from_doc::<T>(all[keys@[j]@]) == Some(registry.items()[j]@));
        }
        assert forall|k: Seq<char>| all.contains_key(k) implies got.contains_key(k) by {
            let j = choose|j: int| 0 <= j < keys@.len() && #[trigger] keys@[j]@ == k;
            assert(registry.ids()[j] == k);
        }
    }
    Some(registry)
}

} // verus!
