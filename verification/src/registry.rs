//! A small map from identifiers to items that keeps the order of insertion.

use vstd::prelude::*;
use crate::json::str_eq;

verus! {

/// Items filed under identifiers, no identifier twice, in the order in which
/// the identifiers were first inserted.
#[derive(Debug, PartialEq)]
pub struct Registry<T> {
    keys: Vec<String>,
    items: Vec<T>,
}

/// The map that a sequence of identifiers and a sequence of values stand for.
pub open spec fn keyed<V>(ids: Seq<Seq<char>>, values: Seq<V>) -> Map<Seq<char>, V> {
    Map::new(|k: Seq<char>| ids.contains(k), |k: Seq<char>| values[ids.index_of(k)])
}

/// The views of a registry's items, by identifier.
pub open spec fn view_map<T: View>(r: Registry<T>) -> Map<Seq<char>, T::V> {
    keyed(r.ids(), r.items().map_values(|t: T| t@))
}

/// Filing a value under an identifier, in place where the identifier stands
/// already and at the end otherwise, is insertion into the map.
pub proof fn lemma_keyed_put<V>(ids: Seq<Seq<char>>, values: Seq<V>, id: Seq<char>, v: V)
    requires
        ids.no_duplicates(),
        ids.len() == values.len(),
    ensures
        ids.contains(id) ==> keyed(ids, values.update(ids.index_of(id), v)) == keyed(
            ids,
            values,
        ).insert(id, v),
        !ids.contains(id) ==> keyed(ids.push(id), values.push(v)) == keyed(ids, values).insert(
            id,
            v,
        ),
{
    if !ids.contains(id) {
        let grown = ids.push(id);
        assert(grown[ids.len() as int] == id);
        assert forall|k: Seq<char>| ids.contains(k) implies grown.contains(k) by {
            let j = choose|j: int| 0 <= j < ids.len() && #[trigger] ids[j] == k;
            assert(grown[j] == k);
        }
    }
}

/// In a sequence without duplicates, an identifier is found where it stands.
pub proof fn lemma_position(ids: Seq<Seq<char>>, i: int)
    requires
        ids.no_duplicates(),
        0 <= i < ids.len(),
    ensures
        ids.contains(ids[i]),
        ids.index_of(ids[i]) == i,
{
}

impl<T: Clone> Clone for Registry<T> {
    /// A registry with the same identifiers, each with a clone of its item.
    fn clone(&self) -> (r: Self)
        ensures
            r.ids() == self.ids(),
            r.items().len() == self.items().len(),
            forall|i: int|
                0 <= i < self.items().len() ==> cloned::<T>(
                    #[trigger] self.items()[i],
                    r.items()[i],
                ),
    {
        proof {
            use_type_invariant(self);
        }
        let mut keys: Vec<String> = Vec::new();
        let mut items: Vec<T> = Vec::new();
        let mut i: usize = 0;
        while i < self.keys.len()
            invariant
                i <= self.keys.len(),
                self.keys@.len() == self.items@.len(),
                keys@.len() == i,
                items@.len() == i,
                forall|j: int| 0 <= j < i ==> keys@[j]@ == self.keys@[j]@,
                forall|j: int| 0 <= j < i ==> cloned::<T>(#[trigger] self.items@[j], items@[j]),
            decreases self.keys.len() - i,
        {
            keys.push(self.keys[i].clone());
            items.push(self.items[i].clone());
            i += 1;
        }
        proof {
            assert(Seq::new(keys@.len(), |j: int| keys@[j]@) =~= self.ids());
        }
        Registry { keys, items }
    }
}

impl<T> Registry<T> {
    /// The identifiers, in order.
    pub closed spec fn ids(&self) -> Seq<Seq<char>> {
        Seq::new(self.keys@.len(), |i: int| self.keys@[i]@)
    }

    /// The items, each at the position of its identifier.
    pub closed spec fn items(&self) -> Seq<T> {
        self.items@
    }

    /// Every identifier has its item, and no identifier occurs twice.
    #[verifier::type_invariant]
    pub open spec fn wf(&self) -> bool {
        &&& self.ids().len() == self.items().len()
        &&& self.ids().no_duplicates()
    }

    /// Whether `id` is registered.
    pub open spec fn has(&self, id: Seq<char>) -> bool {
        self.ids().contains(id)
    }

    /// The position of `id`, where it is registered.
    pub open spec fn position(&self, id: Seq<char>) -> int {
        self.ids().index_of(id)
    }

    /// The registry as a map.
    pub open spec fn as_map(&self) -> Map<Seq<char>, T> {
        keyed(self.ids(), self.items())
    }

    /// An empty registry.
    pub fn new() -> (r: Self)
        ensures
            r.ids() == Seq::<Seq<char>>::empty(),
            r.items() == Seq::<T>::empty(),
    {
        Registry { keys: Vec::new(), items: Vec::new() }
    }

    /// The number of entries.
    pub fn len(&self) -> (n: usize)
        ensures
            n == self.ids().len(),
            n == self.items().len(),
            self.wf(),
    {
        proof {
            use_type_invariant(self);
        }
        self.keys.len()
    }

    /// The position of `id`, or `None` where it is not registered.
    pub fn index_of(&self, id: &str) -> (r: Option<usize>)
        ensures
            match r {
                Some(i) => i < self.ids().len() && self.ids()[i as int] == id@ && self.position(id@)
                    == i,
                None => !self.has(id@),
            },
    {
        proof {
            use_type_invariant(self);
        }
        let mut i: usize = 0;
        while i < self.keys.len()
            invariant
                i <= self.keys.len(),
                forall|j: int| 0 <= j < i ==> self.ids()[j] != id@,
            decreases self.keys.len() - i,
        {
            if str_eq(self.keys[i].as_str(), id) {
                proof {
                    use_type_invariant(self);
                    lemma_position(self.ids(), i as int);
                }
                return Some(i);
            }
            i += 1;
        }
        None
    }

    /// The identifier at position `i`.
    pub fn id_at(&self, i: usize) -> (id: &str)
        requires
            i < self.ids().len(),
        ensures
            id@ == self.ids()[i as int],
    {
        self.keys[i].as_str()
    }

    /// The item at position `i`.
    pub fn item_at(&self, i: usize) -> (item: &T)
        requires
            i < self.ids().len(),
        ensures
            *item == self.items()[i as int],
    {
        proof {
            use_type_invariant(self);
        }
        &self.items[i]
    }

    /// The item at position `i`, to change in place.
    pub fn item_at_mut(&mut self, i: usize) -> (item: &mut T)
        requires
            i < old(self).ids().len(),
        ensures
            *item == old(self).items()[i as int],
            final(self).ids() == old(self).ids(),
            final(self).items() == old(self).items().update(i as int, *final(item)),
    {
        proof {
            use_type_invariant(&*self);
        }
        &mut self.items[i]
    }

    /// The item filed under `id`, or `None` where `id` is not registered.
    pub fn get(&self, id: &str) -> (r: Option<&T>)
        ensures
            match r {
                Some(item) => self.has(id@) && *item == self.items()[self.position(id@)],
                None => !self.has(id@),
            },
    {
        proof {
            use_type_invariant(self);
        }
        match self.index_of(id) {
            Some(i) => Some(&self.items[i]),
            None => None,
        }
    }

    /// Files `item` under `id`. Where `id` is registered already, the item
    /// takes the place of the one filed there, which is returned; otherwise
    /// the entry is added at the end.
    pub fn insert(&mut self, id: String, item: T) -> (r: Option<T>)
        ensures
            old(self).has(id@) ==> {
                &&& final(self).ids() == old(self).ids()
                &&& final(self).items() == old(self).items().update(old(self).position(id@), item)
                &&& r == Some(old(self).items()[old(self).position(id@)])
            },
            !old(self).has(id@) ==> {
                &&& final(self).ids() == old(self).ids().push(id@)
                &&& final(self).items() == old(self).items().push(item)
                &&& r is None
            },
    {
        proof {
            use_type_invariant(&*self);
        }
        match self.index_of(id.as_str()) {
            Some(i) => {
                let mut item = item;
                core::mem::swap(&mut self.items[i], &mut item);
                Some(item)
            },
            None => {
                let mut taken = Registry::new();
                core::mem::swap(self, &mut taken);
                proof {
                    use_type_invariant(&taken);
                }
                let Registry { mut keys, mut items } = taken;
                let ghost before = Seq::new(keys@.len(), |i: int| keys@[i]@);
                keys.push(id);
                items.push(item);
                proof {
                    let after = Seq::new(keys@.len(), |i: int| keys@[i]@);
                    assert(after =~= before.push(id@));
                }
                *self = Registry { keys, items };
                None
            },
        }
    }
}

} // verus!
