//! Immutable snapshots of the key-to-entry mapping.
//!
//! A snapshot is never changed once built: `with_entry` makes a new one and leaves
//! the old one as it was, so a reader that holds a snapshot keeps seeing one
//! consistent mapping.  The keys are indexed by a persistent hash map, which shares
//! structure between a snapshot and the one made from it.

use crate::key::{Key, KeyModel};
use crate::model::{id_is_given, ids_are_dense};
use std::collections::HashMap;
use vstd::prelude::*;

verus! {

/// `im::HashMap`, a persistent hash map.  What one holds is given by
/// `index_entries`.
#[verifier::external_type_specification]
#[verifier::external_body]
#[verifier::reject_recursive_types(K)]
#[verifier::reject_recursive_types(V)]
#[verifier::reject_recursive_types(S)]
pub struct ExPersistentHashMap<K, V, S>(im::HashMap<K, V, S>);

/// The key-to-identifier mapping that a persistent index holds, keys taken by their
/// models.
pub uninterp spec fn index_entries(index: im::HashMap<Key, usize>) -> Map<KeyModel, usize>;

/// Whether `pairs` lists the mapping `entries`: each pair is an entry, each entry
/// occurs, and no key occurs twice.  The order of the pairs is left open.
pub open spec fn lists_entries<V>(pairs: Seq<(Key, V)>, entries: Map<KeyModel, V>) -> bool {
    &&& forall|i: int|
        0 <= i < pairs.len() ==> entries.contains_key(#[trigger] pairs[i].0@) && entries[pairs[i].0@]
            == pairs[i].1
    &&& forall|k: KeyModel| #[trigger]
        entries.contains_key(k) ==> exists|i: int| 0 <= i < pairs.len() && #[trigger] pairs[i].0@ == k
    &&& forall|i: int, j: int|
        0 <= i < j < pairs.len() ==> #[trigger] pairs[i].0@ != #[trigger] pairs[j].0@
}

/// Whether `pairs` lists the handles of the mapping `entries`: each pair is a key of
/// the mapping with the handle registered under it, each key occurs, and none
/// occurs twice.  The order of the pairs is left open.
pub open spec fn lists_handles<H>(pairs: Seq<(Key, &'static H)>, entries: Map<KeyModel, (usize, H)>) -> bool {
    &&& forall|i: int|
        0 <= i < pairs.len() ==> entries.contains_key(#[trigger] pairs[i].0@) && entries[pairs[i].0@].1
            == *pairs[i].1
    &&& forall|k: KeyModel| #[trigger]
        entries.contains_key(k) ==> exists|i: int| 0 <= i < pairs.len() && #[trigger] pairs[i].0@ == k
    &&& forall|i: int, j: int|
        0 <= i < j < pairs.len() ==> #[trigger] pairs[i].0@ != #[trigger] pairs[j].0@
}

/// Whether no two of `pairs` have keys with the same model.
pub open spec fn keys_differ<H>(pairs: Seq<(Key, &'static H)>) -> bool {
    forall|i: int, j: int|
        0 <= i < j < pairs.len() ==> #[trigger] pairs[i].0@ != #[trigger] pairs[j].0@
}

/// Whether the map `m` holds the pairs of `pairs` and nothing else: each key of
/// `pairs` with its handle, and no other key.
pub open spec fn holds_pairs<H>(m: Map<Key, &'static H>, pairs: Seq<(Key, &'static H)>) -> bool {
    &&& forall|i: int|
        0 <= i < pairs.len() ==> m.contains_key((#[trigger] pairs[i]).0) && m[pairs[i].0]
            == pairs[i].1
    &&& forall|k: Key| #[trigger]
        m.contains_key(k) ==> exists|i: int| 0 <= i < pairs.len() && (#[trigger] pairs[i]).0 == k
}

/// Whether the map `m` is the mapping `entries` with the identifiers dropped: each
/// key of `m` is a key of `entries` with the handle registered under it, each key
/// of `entries` occurs in `m`, and no two keys of `m` have the same model.
pub open spec fn maps_handles<H>(m: Map<Key, &'static H>, entries: Map<KeyModel, (usize, H)>) -> bool {
    &&& forall|k: Key| #[trigger]
        m.contains_key(k) ==> entries.contains_key(k@) && entries[k@].1 == *m[k]
    &&& forall|km: KeyModel| #[trigger]
        entries.contains_key(km) ==> exists|k: Key| #[trigger] m.contains_key(k) && k@ == km
    &&& forall|k1: Key, k2: Key|
        #[trigger] m.contains_key(k1) && #[trigger] m.contains_key(k2) && k1@ == k2@ ==> k1 == k2
}

/// `HashMap::from_iter` on pairs of which no two have equal keys: a map that holds
/// each of the pairs under its key, and nothing else, so that it has as many
/// entries as there are pairs.  Two keys are equal for the map when their models
/// are.
#[verifier::external_body]
fn collect_pairs<H: 'static>(pairs: Vec<(Key, &'static H)>) -> (r: HashMap<Key, &'static H>)
    requires
        keys_differ(pairs@),
    ensures
        holds_pairs(r@, pairs@),
        r.len() == pairs.len(),
{
    HashMap::from_iter(pairs)
}

/// `im::HashMap::new`: the new index holds no entry.
#[verifier::external_body]
fn index_new() -> (r: im::HashMap<Key, usize>)
    ensures
        forall|k: KeyModel| !index_entries(r).contains_key(k),
{
    im::HashMap::new()
}

/// `im::HashMap::get`: the identifier stored for a key equal to `key`, if the index
/// holds one.  The map finds a key by its hash and by `==`; `Key`'s `==` is equality
/// of models, and its hash is made of the same characters.
#[verifier::external_body]
fn index_get(index: &im::HashMap<Key, usize>, key: &Key) -> (r: Option<usize>)
    ensures
        r == (if index_entries(*index).contains_key(key@) {
            Some(index_entries(*index)[key@])
        } else {
            None::<usize>
        }),
{
    index.get(key).copied()
}

/// `im::HashMap::update`: a new index that holds the entries of `index` and maps `key`
/// to `id`, in place of what `index` had for that key.  `index` itself is unchanged.
#[verifier::external_body]
fn index_update(index: &im::HashMap<Key, usize>, key: Key, id: usize) -> (r: im::HashMap<
    Key,
    usize,
>)
    ensures
        index_entries(r) == index_entries(*index).insert(key@, id),
{
    index.update(key, id)
}

/// `im::HashMap::iter`: every entry of the index once, each key cloned, in the order
/// in which the map walks its nodes, which is not specified here.
#[verifier::external_body]
fn index_pairs(index: &im::HashMap<Key, usize>) -> (r: Vec<(Key, usize)>)
    ensures
        lists_entries(r@, index_entries(*index)),
{
    index.iter().map(|(k, id)| (k.clone(), *id)).collect()
}

/// Whether the index maps some key to `id`.
spec fn is_indexed(entries: Map<KeyModel, usize>, id: usize) -> bool {
    exists|k: KeyModel| #[trigger] entries.contains_key(k) && entries[k] == id
}

/// An immutable mapping from keys to `(id, handle)` entries.
///
/// The handles are kept in the order in which they were added, and the identifier
/// of an entry is the position of its handle.  So in every snapshot the identifiers
/// are dense: a snapshot of `n` entries has given each of `0..n` to one key.
pub struct Snapshot<H: 'static> {
    /// For each key, its identifier.
    index: im::HashMap<Key, usize>,
    /// The handles, by identifier.
    handles: Vec<&'static H>,
}

impl<H: 'static> View for Snapshot<H> {
    type V = Map<KeyModel, (usize, H)>;

    /// The mapping that this snapshot holds: for each key its identifier and handle.
    closed spec fn view(&self) -> Map<KeyModel, (usize, H)> {
        Map::new(
            |k: KeyModel| index_entries(self.index).contains_key(k),
            |k: KeyModel|
                (index_entries(self.index)[k], *self.handles[index_entries(self.index)[k] as int]),
        )
    }
}

impl<H: 'static> Snapshot<H> {
    /// The index gives each position of the handle list to one key.
    #[verifier::type_invariant]
    spec fn positions_are_ids(&self) -> bool {
        &&& forall|k: KeyModel| #[trigger]
            index_entries(self.index).contains_key(k) ==> index_entries(self.index)[k]
                < self.handles.len()
        &&& forall|k1: KeyModel, k2: KeyModel|
            #[trigger] index_entries(self.index).contains_key(k1) && #[trigger] index_entries(
                self.index,
            ).contains_key(k2) && index_entries(self.index)[k1] == index_entries(self.index)[k2]
                ==> k1 == k2
        &&& forall|id: usize|
            id < self.handles.len() ==> #[trigger] is_indexed(index_entries(self.index), id)
    }

    /// What the invariant says of the index, said of the mapping.
    proof fn lemma_dense(&self)
        requires
            self.positions_are_ids(),
        ensures
            ids_are_dense(self@, self.next_id()),
    {
        let entries = index_entries(self.index);
        assert forall|id: usize| id < self.next_id() implies #[trigger] id_is_given(self@, id) by {
            assert(is_indexed(entries, id));
            let k = choose|k: KeyModel| #[trigger] entries.contains_key(k) && entries[k] == id;
            assert(self@.contains_key(k) && self@[k].0 == id);
        }
        assert forall|k1: KeyModel, k2: KeyModel|
            #[trigger] self@.contains_key(k1) && #[trigger] self@.contains_key(k2) && self@[k1].0
                == self@[k2].0 implies k1 == k2 by {
            assert(entries.contains_key(k1) && entries.contains_key(k2));
        }
    }

    /// The number of handles that this snapshot keeps, which is the identifier that
    /// the next entry gets.
    pub closed spec fn next_id(&self) -> nat {
        self.handles.len() as nat
    }

    /// A snapshot without entries.
    pub fn new() -> (r: Self)
        ensures
            r@ == Map::<KeyModel, (usize, H)>::empty(),
            r.next_id() == 0,
            ids_are_dense(r@, r.next_id()),
    {
        let r = Snapshot { index: index_new(), handles: Vec::new() };
        assert(r@ =~= Map::<KeyModel, (usize, H)>::empty());
        proof {
            r.lemma_dense();
        }
        r
    }

    /// The entry of `key`, if the snapshot has one.
    pub fn get(&self, key: &Key) -> (r: Option<(usize, &'static H)>)
        ensures
            match r {
                Some(entry) => self@.contains_key(key@) && self@[key@] == (entry.0, *entry.1),
                None => !self@.contains_key(key@),
            },
            ids_are_dense(self@, self.next_id()),
    {
        proof {
            use_type_invariant(self);
            self.lemma_dense();
        }
        match index_get(&self.index, key) {
            Some(id) => Some((id, self.handles[id])),
            None => None,
        }
    }

    /// A new snapshot that holds the entries of this one and maps `key`, which this
    /// one must not hold, to the next identifier and `handle`.  This snapshot is
    /// unchanged.
    ///
    /// The index of the new snapshot shares its structure with the index of this
    /// one.  The list of handles is copied, one reference for each entry.
    pub fn with_entry(&self, key: Key, handle: &'static H) -> (r: Self)
        requires
            !self@.contains_key(key@),
        ensures
            r@ == self@.insert(key@, (self.next_id() as usize, *handle)),
            r@[key@].0 == self.next_id(),
            r.next_id() == self.next_id() + 1,
            ids_are_dense(r@, r.next_id()),
    {
        proof {
            use_type_invariant(self);
        }
        let mut handles = self.handles.clone();
        assert(handles@ =~= self.handles@);
        let id = handles.len();
        handles.push(handle);
        let ghost model = key@;
        let index = index_update(&self.index, key, id);
        proof {
            let before = index_entries(self.index);
            let after = index_entries(index);
            assert forall|other: usize| other < handles.len() implies #[trigger] is_indexed(
                after,
                other,
            ) by {
                if other == id {
                    assert(after.contains_key(model) && after[model] == other);
                } else {
                    assert(is_indexed(before, other));
                    let k = choose|k: KeyModel| #[trigger] before.contains_key(k) && before[k] == other;
                    assert(after.contains_key(k) && after[k] == other);
                }
            }
            assert forall|k1: KeyModel, k2: KeyModel|
                #[trigger] after.contains_key(k1) && #[trigger] after.contains_key(k2) && after[k1]
                    == after[k2] implies k1 == k2 by {
                if k1 != model && k2 != model {
                    assert(before.contains_key(k1) && before.contains_key(k2));
                } else if k1 != model {
                    assert(before.contains_key(k1));
                } else if k2 != model {
                    assert(before.contains_key(k2));
                }
            }
        }
        let r = Snapshot { index, handles };
        assert(r@ =~= self@.insert(model, (id, *handle)));
        proof {
            r.lemma_dense();
        }
        r
    }

    /// The keys of this snapshot, each with its handle, in no particular order.
    /// No key occurs twice, and each pair is an entry of the snapshot.
    pub fn handles(&self) -> (r: Vec<(Key, &'static H)>)
        ensures
            lists_handles(r@, self@),
    {
        proof {
            use_type_invariant(self);
        }
        let mut pairs = index_pairs(&self.index);
        let ghost all = pairs@;
        let mut out: Vec<(Key, &'static H)> = Vec::new();
        while pairs.len() > 0
            invariant
                lists_entries(all, index_entries(self.index)),
                self.positions_are_ids(),
                pairs@ == all.take(pairs.len() as int),
                out.len() + pairs.len() == all.len(),
                forall|j: int|
                    0 <= j < out.len() ==> (#[trigger] out[j]).0@ == all[all.len() - 1 - j].0@
                        && *out[j].1 == *self.handles[all[all.len() - 1 - j].1 as int],
            decreases pairs.len(),
        {
            let ghost last = pairs.len() - 1;
            assert(index_entries(self.index).contains_key(all[last].0@));
            let (key, id) = pairs.pop().unwrap();
            out.push((key, self.handles[id]));
        }
        proof {
            let n = all.len() as int;
            assert forall|k: KeyModel| #[trigger] self@.contains_key(k) implies exists|i: int|
                0 <= i < out.len() && #[trigger] out[i].0@ == k by {
                let i = choose|i: int| 0 <= i < n && #[trigger] all[i].0@ == k;
                assert(out[n - 1 - i].0@ == k);
            }
            assert forall|i: int| 0 <= i < out.len() implies self@.contains_key(
                #[trigger] out[i].0@,
            ) && self@[out[i].0@].1 == *out[i].1 by {
                assert(index_entries(self.index).contains_key(all[n - 1 - i].0@));
            }
            assert forall|i: int, j: int| 0 <= i < j < out.len() implies #[trigger] out[i].0@
                != #[trigger] out[j].0@ by {
                assert(all[n - 1 - j].0@ != all[n - 1 - i].0@);
            }
        }
        out
    }

    /// The mapping of this snapshot with the identifiers dropped: each key with its
    /// handle.
    pub fn handle_map(&self) -> (r: HashMap<Key, &'static H>)
        ensures
            maps_handles(r@, self@),
            self@.dom().finite(),
            r.len() == self@.dom().len(),
    {
        let pairs = self.handles();
        let ghost listed = pairs@;
        let r = collect_pairs(pairs);
        proof {
            let keys = Seq::new(listed.len(), |i: int| listed[i].0@);
            assert(keys.no_duplicates());
            assert forall|km: KeyModel| keys.to_set().contains(km) <==> self@.dom().contains(km) by {
                if keys.contains(km) {
                    let i = choose|i: int| 0 <= i < keys.len() && keys[i] == km;
                    assert(self@.contains_key(listed[i].0@));
                }
                if self@.contains_key(km) {
                    let i = choose|i: int| 0 <= i < listed.len() && #[trigger] listed[i].0@ == km;
                    assert(keys[i] == km);
                }
            }
            assert(keys.to_set() =~= self@.dom());
            keys.unique_seq_to_set();
            vstd::seq_lib::seq_to_set_is_finite(keys);
            assert forall|k: Key| #[trigger] r@.contains_key(k) implies self@.contains_key(k@)
                && self@[k@].1 == *r@[k] by {
                let i = choose|i: int| 0 <= i < listed.len() && (#[trigger] listed[i]).0 == k;
                assert(self@.contains_key(listed[i].0@));
            }
            assert forall|km: KeyModel| #[trigger] self@.contains_key(km) implies exists|k: Key| #[trigger]
                r@.contains_key(k) && k@ == km by {
                let i = choose|i: int| 0 <= i < listed.len() && #[trigger] listed[i].0@ == km;
                assert(r@.contains_key(listed[i].0));
            }
            assert forall|k1: Key, k2: Key|
                #[trigger] r@.contains_key(k1) && #[trigger] r@.contains_key(k2) && k1@
                    == k2@ implies k1 == k2 by {
                let i = choose|i: int| 0 <= i < listed.len() && (#[trigger] listed[i]).0 == k1;
                let j = choose|j: int| 0 <= j < listed.len() && (#[trigger] listed[j]).0 == k2;
                if i < j {
                    assert(listed[i].0@ != listed[j].0@);
                }
                if j < i {
                    assert(listed[j].0@ != listed[i].0@);
                }
            }
        }
        r
    }
}

} // verus!
