//! Keyed stores of entities.

use std::collections::HashMap;
use vstd::prelude::*;
use vstd::std_specs::iter::IteratorSpec;
use crate::entity::Entity;
use crate::identity::Identity;

verus! {

broadcast use vstd::std_specs::hash::group_hash_axioms;

/// `items` holds the value of every key of `m` exactly once, in some order.
pub open spec fn enumerates<K, V>(m: Map<K, V>, items: Seq<V>) -> bool {
    exists|keys: Seq<K>| lists_by(m, keys, items)
}

/// `keys` names every key of `m` exactly once, and `items` holds their
/// values in the same order.
pub open spec fn lists_by<K, V>(m: Map<K, V>, keys: Seq<K>, items: Seq<V>) -> bool {
    &&& keys.no_duplicates()
    &&& forall|k: K| m.contains_key(k) <==> keys.contains(k)
    &&& keys.len() == items.len()
    &&& forall|i: int| 0 <= i < keys.len() ==> items[i] == m[#[trigger] keys[i]]
}

/// What a listing is worth: it is as long as the mapping has keys, each of its
/// items is the value of some key, and the value of every key is among them.
pub proof fn lemma_enumerates<K, V>(m: Map<K, V>, items: Seq<V>)
    requires
        enumerates(m, items),
    ensures
        m.dom().finite(),
        items.len() == m.len(),
        forall|i: int| 0 <= i < items.len() ==> m.contains_value(#[trigger] items[i]),
        forall|k: K| #[trigger] m.contains_key(k) ==> items.contains(m[k]),
{
    let keys = choose|keys: Seq<K>| lists_by(m, keys, items);
    assert(keys.to_set() =~= m.dom());
    vstd::seq_lib::seq_to_set_is_finite(keys);
    keys.unique_seq_to_set();
    assert forall|i: int| 0 <= i < items.len() implies m.contains_value(#[trigger] items[i]) by {
        assert(keys.contains(keys[i]));
    }
    assert forall|k: K| #[trigger] m.contains_key(k) implies items.contains(m[k]) by {
        assert(keys.contains(k));
    }
}

/// The views of a sequence of entities, in order.
pub open spec fn entity_views<E: Entity>(entities: Seq<E>) -> Seq<E::V> {
    Seq::new(entities.len(), |i: int| entities[i]@)
}

/// A store of entities of one kind, keyed by numeric identifier.
pub struct EntityStore<E: Entity> {
    items: HashMap<u64, E>,
}

impl<E: Entity> View for EntityStore<E> {
    type V = Map<u64, E::V>;

    closed spec fn view(&self) -> Map<u64, E::V> {
        self.items@.map_values(|e: E| e@)
    }
}

impl<E: Entity> EntityStore<E> {
    /// An empty store.
    pub fn new() -> (r: Self)
        ensures
            r@ == Map::<u64, E::V>::empty(),
    {
        EntityStore { items: HashMap::new() }
    }

    /// Puts `entity` under `key`, in place of whatever was there.
    pub fn insert(&mut self, key: u64, entity: E)
        ensures
            final(self)@ == old(self)@.insert(key, entity@),
    {
        self.items.insert(key, entity);
    }

    /// The entity under `key` where it lies, if there is one.
    pub fn borrow(&self, key: u64) -> (r: Option<&E>)
        ensures
            match r {
                Some(e) => self@.contains_key(key) && e@ == self@[key],
                None => !self@.contains_key(key),
            },
    {
        self.items.get(&key)
    }

    /// A copy of the entity under `key`, if there is one.
    pub fn get(&self, key: u64) -> (r: Option<E>)
        ensures
            match r {
                Some(e) => self@.contains_key(key) && e@ == self@[key],
                None => !self@.contains_key(key),
            },
    {
        match self.borrow(key) {
            Some(e) => Some(e.duplicate()),
            None => None,
        }
    }

    /// Takes the entity under `key` out of the store, if there is one.
    pub fn remove(&mut self, key: u64) -> (r: Option<E>)
        ensures
            final(self)@ == old(self)@.remove(key),
            match r {
                Some(e) => old(self)@.contains_key(key) && e@ == old(self)@[key],
                None => !old(self)@.contains_key(key),
            },
    {
        self.items.remove(&key)
    }

    /// Copies of all the entities in the store, in no particular order.
    pub fn list(&self) -> (r: Vec<E>)
        ensures
            enumerates(self@, entity_views(r@)),
            r@.len() == self@.len(),
    {
        let mut out: Vec<E> = Vec::new();
        let ghost all = self.items.iter().remaining();
        for pair in it: self.items.iter()
            invariant
                it.seq() == all,
                all.no_duplicates(),
                out@.len() == it.index(),
                forall|i: int| 0 <= i < it.index() ==> (#[trigger] out@[i])@ == (*all[i].1)@,
        {
            out.push(pair.1.duplicate());
        }
        proof {
            let keys = Seq::new(all.len(), |i: int| *all[i].0);
            assert forall|i: int| 0 <= i < keys.len() implies self.items@.contains_key(
                #[trigger] keys[i],
            ) && self.items@[keys[i]] == *all[i].1 by {
                assert(self.items@.contains_key(*all[i].0));
            }
            assert forall|i: int, j: int| 0 <= i < j < keys.len() implies keys[i] != keys[j] by {
                if keys[i] == keys[j] {
                    assert(all[i] == all[j]);
                }
            }
            assert forall|k: u64| self@.contains_key(k) implies keys.contains(k) by {
                let i = all.index_of((&k, &self.items@[k]));
                assert(keys[i] == k);
            }
            assert(lists_by(self@, keys, entity_views(out@)));
            assert(self@.dom() =~= self.items@.dom());
        }
        out
    }
}

/// Whether some entry of `entries` is keyed by `key`.
spec fn has_key<E>(entries: Seq<(Identity, E)>, key: Seq<u8>) -> bool {
    exists|i: int| 0 <= i < entries.len() && (#[trigger] entries[i]).0@ == key
}

/// The place of an entry of `entries` that is keyed by `key`.
spec fn place_of<E>(entries: Seq<(Identity, E)>, key: Seq<u8>) -> int {
    choose|i: int| 0 <= i < entries.len() && (#[trigger] entries[i]).0@ == key
}

/// No two entries of `entries` have the same key.
spec fn distinct_keys<E>(entries: Seq<(Identity, E)>) -> bool {
    forall|i: int, j: int|
        0 <= i < j < entries.len() ==> (#[trigger] entries[i]).0@ != (#[trigger] entries[j]).0@
}

/// The mapping that `entries` stands for: each key to the view of its entity.
spec fn entries_map<E: Entity>(entries: Seq<(Identity, E)>) -> Map<Seq<u8>, E::V> {
    Map::new(|k: Seq<u8>| has_key(entries, k), |k: Seq<u8>| entries[place_of(entries, k)].1@)
}

/// With distinct keys, the entry at place `i` is the one its key maps to.
proof fn lemma_place<E: Entity>(entries: Seq<(Identity, E)>, i: int)
    requires
        distinct_keys(entries),
        0 <= i < entries.len(),
    ensures
        has_key(entries, entries[i].0@),
        place_of(entries, entries[i].0@) == i,
        entries_map(entries).contains_key(entries[i].0@),
        entries_map(entries)[entries[i].0@] == entries[i].1@,
{
}

/// A store of entities of one kind, keyed by the identity they belong to.
pub struct IdentityStore<E: Entity> {
    entries: Vec<(Identity, E)>,
}

impl<E: Entity> View for IdentityStore<E> {
    type V = Map<Seq<u8>, E::V>;

    closed spec fn view(&self) -> Map<Seq<u8>, E::V> {
        entries_map(self.entries@)
    }
}

impl<E: Entity> IdentityStore<E> {
    /// Whether the store is in order: it holds no key twice.
    pub closed spec fn wf(&self) -> bool {
        distinct_keys(self.entries@)
    }

    /// An empty store.
    pub fn new() -> (r: Self)
        ensures
            r.wf(),
            r@ == Map::<Seq<u8>, E::V>::empty(),
    {
        IdentityStore { entries: Vec::new() }
    }

    /// The place of the entry keyed by `key`, if there is one.
    fn find(&self, key: &Identity) -> (r: Option<usize>)
        ensures
            match r {
                Some(i) => i < self.entries@.len() && self.entries@[i as int].0@ == key@,
                None => !has_key(self.entries@, key@),
            },
    {
        let mut i: usize = 0;
        while i < self.entries.len()
            invariant
                i <= self.entries@.len(),
                forall|j: int| 0 <= j < i ==> (#[trigger] self.entries@[j]).0@ != key@,
            decreases self.entries@.len() - i,
        {
            if self.entries[i].0.same(key) {
                return Some(i);
            }
            i = i + 1;
        }
        None
    }

    /// Puts `entity` under `key`, in place of whatever was there.
    pub fn insert(&mut self, key: Identity, entity: E)
        requires
            old(self).wf(),
        ensures
            final(self).wf(),
            final(self)@ == old(self)@.insert(key@, entity@),
    {
        let ghost before = self.entries@;
        match self.find(&key) {
            Some(i) => {
                self.entries.set(i, (key, entity));
                proof {
                    lemma_replace(before, i as int, (key, entity));
                }
            },
            None => {
                self.entries.push((key, entity));
                proof {
                    lemma_append(before, (key, entity));
                }
            },
        }
    }

    /// The entity under `key` where it lies, if there is one.
    pub fn borrow(&self, key: &Identity) -> (r: Option<&E>)
        requires
            self.wf(),
        ensures
            match r {
                Some(e) => self@.contains_key(key@) && e@ == self@[key@],
                None => !self@.contains_key(key@),
            },
    {
        match self.find(key) {
            Some(i) => {
                proof {
                    lemma_place(self.entries@, i as int);
                }
                Some(&self.entries[i].1)
            },
            None => None,
        }
    }

    /// A copy of the entity under `key`, if there is one.
    pub fn get(&self, key: &Identity) -> (r: Option<E>)
        requires
            self.wf(),
        ensures
            match r {
                Some(e) => self@.contains_key(key@) && e@ == self@[key@],
                None => !self@.contains_key(key@),
            },
    {
        match self.borrow(key) {
            Some(e) => Some(e.duplicate()),
            None => None,
        }
    }

    /// Takes the entity under `key` out of the store, if there is one.
    pub fn remove(&mut self, key: &Identity) -> (r: Option<E>)
        requires
            old(self).wf(),
        ensures
            final(self).wf(),
            final(self)@ == old(self)@.remove(key@),
            match r {
                Some(e) => old(self)@.contains_key(key@) && e@ == old(self)@[key@],
                None => !old(self)@.contains_key(key@),
            },
    {
        let ghost before = self.entries@;
        match self.find(key) {
            Some(i) => {
                proof {
                    lemma_place(before, i as int);
                    lemma_take_out(before, i as int);
                }
                let entry = self.entries.remove(i);
                Some(entry.1)
            },
            None => None,
        }
    }

    /// Copies of all the entities in the store, in no particular order.
    pub fn list(&self) -> (r: Vec<E>)
        requires
            self.wf(),
        ensures
            enumerates(self@, entity_views(r@)),
            r@.len() == self@.len(),
    {
        let mut out: Vec<E> = Vec::new();
        let mut i: usize = 0;
        while i < self.entries.len()
            invariant
                i <= self.entries@.len(),
                out@.len() == i,
                forall|j: int| 0 <= j < i ==> (#[trigger] out@[j])@ == self.entries@[j].1@,
            decreases self.entries@.len() - i,
        {
            out.push(self.entries[i].1.duplicate());
            i = i + 1;
        }
        proof {
            let entries = self.entries@;
            let keys = Seq::new(entries.len(), |j: int| entries[j].0@);
            assert forall|j: int| 0 <= j < keys.len() implies entity_views(out@)[j] == self@[#[trigger] keys[j]] by {
                lemma_place(entries, j);
            }
            assert forall|k: Seq<u8>| self@.contains_key(k) <==> keys.contains(k) by {
                if self@.contains_key(k) {
                    let j = place_of(entries, k);
                    assert(keys[j] == k);
                }
                if keys.contains(k) {
                    let j = choose|j: int| 0 <= j < keys.len() && keys[j] == k;
                    lemma_place(entries, j);
                }
            }
            assert(lists_by(self@, keys, entity_views(out@)));
            lemma_len(entries);
        }
        out
    }
}

/// With distinct keys, the mapping has as many keys as there are entries.
proof fn lemma_len<E: Entity>(entries: Seq<(Identity, E)>)
    requires
        distinct_keys(entries),
    ensures
        entries_map(entries).dom().finite(),
        entries_map(entries).dom().len() == entries.len(),
    decreases entries.len(),
{
    if entries.len() == 0 {
        assert(entries_map(entries).dom() =~= Set::<Seq<u8>>::empty());
    } else {
        let front = entries.drop_last();
        assert(distinct_keys(front));
        assert(!has_key(front, entries.last().0@));
        lemma_len(front);
        lemma_append(front, entries.last());
        assert(front.push(entries.last()) =~= entries);
    }
}

/// Appending an entry under a key maps that key to the entry's entity.
proof fn lemma_append<E: Entity>(entries: Seq<(Identity, E)>, entry: (Identity, E))
    requires
        distinct_keys(entries),
        !has_key(entries, entry.0@),
    ensures
        distinct_keys(entries.push(entry)),
        entries_map(entries.push(entry)) == entries_map(entries).insert(entry.0@, entry.1@),
{
    let after = entries.push(entry);
    let want = entries_map(entries).insert(entry.0@, entry.1@);
    assert(distinct_keys(after));
    assert forall|k: Seq<u8>| entries_map(after).contains_key(k) <==> want.contains_key(k) by {
        if has_key(entries, k) {
            assert(after[place_of(entries, k)] == entries[place_of(entries, k)]);
        }
        if k == entry.0@ {
            assert(after[entries.len() as int] == entry);
        }
    }
    assert forall|k: Seq<u8>| entries_map(after).contains_key(k) implies entries_map(after)[k]
        == want[k] by {
        let i = place_of(after, k);
        lemma_place(after, i);
        if i < entries.len() {
            lemma_place(entries, i);
        }
    }
}

/// Replacing an entry by another under the same key maps that key to the new
/// entity.
proof fn lemma_replace<E: Entity>(entries: Seq<(Identity, E)>, i: int, entry: (Identity, E))
    requires
        distinct_keys(entries),
        0 <= i < entries.len(),
        entries[i].0@ == entry.0@,
    ensures
        distinct_keys(entries.update(i, entry)),
        entries_map(entries.update(i, entry)) == entries_map(entries).insert(entry.0@, entry.1@),
{
    let after = entries.update(i, entry);
    let want = entries_map(entries).insert(entry.0@, entry.1@);
    assert(distinct_keys(after));
    assert forall|k: Seq<u8>| entries_map(after).contains_key(k) <==> want.contains_key(k) by {
        if has_key(entries, k) {
            assert(after[place_of(entries, k)].0@ == entries[place_of(entries, k)].0@);
        }
        if k == entry.0@ {
            assert(after[i] == entry);
        }
    }
    assert forall|k: Seq<u8>| entries_map(after).contains_key(k) implies entries_map(after)[k]
        == want[k] by {
        let j = place_of(after, k);
        lemma_place(after, j);
        if j != i {
            lemma_place(entries, j);
        }
    }
}

/// Taking an entry out removes its key from the mapping and nothing else.
proof fn lemma_take_out<E: Entity>(entries: Seq<(Identity, E)>, i: int)
    requires
        distinct_keys(entries),
        0 <= i < entries.len(),
    ensures
        distinct_keys(entries.remove(i)),
        entries_map(entries.remove(i)) == entries_map(entries).remove(entries[i].0@),
{
    let after = entries.remove(i);
    let want = entries_map(entries).remove(entries[i].0@);
    // where the entry at place `a` of `after` lay in `entries`
    let origin = |a: int| if a < i { a } else { a + 1 };
    assert(distinct_keys(after)) by {
        assert forall|a: int, b: int| 0 <= a < b < after.len() implies (#[trigger] after[a]).0@
            != (#[trigger] after[b]).0@ by {
            assert(after[a] == entries[origin(a)] && after[b] == entries[origin(b)]);
        }
    }
    assert forall|k: Seq<u8>| entries_map(after).contains_key(k) <==> want.contains_key(k) by {
        if has_key(after, k) {
            let j = place_of(after, k);
            assert(after[j] == entries[origin(j)]);
        }
        if has_key(entries, k) && k != entries[i].0@ {
            let j = place_of(entries, k);
            assert(after[if j < i { j } else { j - 1 }] == entries[j]);
        }
    }
    assert forall|k: Seq<u8>| entries_map(after).contains_key(k) implies entries_map(after)[k]
        == want[k] by {
        let j = place_of(after, k);
        assert(after[j] == entries[origin(j)]);
        lemma_place(after, j);
        lemma_place(entries, origin(j));
    }
}

} // verus!
