//! The registry as a mathematical object, and the laws that hold of it.
//!
//! A registry state is a table of entries in the order in which they were
//! registered, and a snapshot that maps each registered key to its identifier and
//! handle.  An identifier is the position of the entry in the table.  The
//! executable functions of this crate state their results over these two parts.

use crate::key::KeyModel;
use vstd::prelude::*;

verus! {

/// Whether `snapshot` has given the identifier `id` to some key.
pub open spec fn id_is_given<H>(snapshot: Map<KeyModel, (usize, H)>, id: usize) -> bool {
    exists|k: KeyModel| #[trigger] snapshot.contains_key(k) && snapshot[k].0 == id
}

/// Whether the identifiers in `snapshot` are exactly the numbers below `n`, each
/// given to one key: none is `n` or above, no two keys share one, and none below
/// `n` is left out.
pub open spec fn ids_are_dense<H>(snapshot: Map<KeyModel, (usize, H)>, n: nat) -> bool {
    &&& forall|k: KeyModel| #[trigger] snapshot.contains_key(k) ==> snapshot[k].0 < n
    &&& forall|k1: KeyModel, k2: KeyModel|
        #[trigger] snapshot.contains_key(k1) && #[trigger] snapshot.contains_key(k2)
            && snapshot[k1].0 == snapshot[k2].0 ==> k1 == k2
    &&& forall|id: usize| id < n ==> #[trigger] id_is_given(snapshot, id)
}

/// A registry state: the table and the snapshot.
pub struct RegistryModel<H> {
    /// The entries, by identifier.
    pub table: Seq<(KeyModel, H)>,
    /// For each registered key, its identifier and handle.
    pub snapshot: Map<KeyModel, (usize, H)>,
}

impl<H> RegistryModel<H> {
    /// The state in which nothing is registered.
    pub open spec fn empty() -> Self {
        RegistryModel { table: Seq::empty(), snapshot: Map::empty() }
    }

    /// Whether the table and the snapshot agree: the entry at position `i` of the
    /// table is mapped to identifier `i` by the snapshot, and the snapshot maps
    /// nothing else.
    pub open spec fn consistent(self) -> bool {
        &&& forall|i: int|
            0 <= i < self.table.len() ==> self.snapshot.contains_key(#[trigger] self.table[i].0)
                && self.snapshot[self.table[i].0].0 == i && self.snapshot[self.table[i].0].1
                == self.table[i].1
        &&& forall|k: KeyModel| #[trigger]
            self.snapshot.contains_key(k) ==> self.snapshot[k].0 < self.table.len()
                && self.table[self.snapshot[k].0 as int].0 == k
    }

    /// Whether `key` is registered.
    pub open spec fn contains(self, key: KeyModel) -> bool {
        self.snapshot.contains_key(key)
    }

    /// Whether identifier `id` has been given to some key.
    pub open spec fn issued(self, id: usize) -> bool {
        id_is_given(self.snapshot, id)
    }

    /// The state after `key` has been entered with `handle`: the entry is appended
    /// to the table, and the snapshot maps the key to the entry's position.
    pub open spec fn with_entry(self, key: KeyModel, handle: H) -> Self {
        RegistryModel {
            table: self.table.push((key, handle)),
            snapshot: self.snapshot.insert(key, (self.table.len() as usize, handle)),
        }
    }

    /// What a lookup-or-create step does with `key`, where `fresh` is the handle
    /// that the factory would make: a registered key keeps its entry and the state
    /// stays as it is; a new key is entered with `fresh`.
    pub open spec fn get_or_create(self, key: KeyModel, fresh: H) -> (Self, (usize, H)) {
        if self.contains(key) {
            (self, self.snapshot[key])
        } else {
            (self.with_entry(key, fresh), (self.table.len() as usize, fresh))
        }
    }

    /// The entry with identifier `id`, if there is one.
    pub open spec fn entry(self, id: usize) -> Option<(KeyModel, H)> {
        if id < self.table.len() {
            Some(self.table[id as int])
        } else {
            None
        }
    }

    /// The state after a run of lookup-or-create steps, one for each item of `steps`
    /// in order: the key that is asked for, and the handle that its factory would
    /// make.
    pub open spec fn after(self, steps: Seq<(KeyModel, H)>) -> Self
        decreases steps.len(),
    {
        if steps.len() == 0 {
            self
        } else {
            self.after(steps.drop_last()).get_or_create(steps.last().0, steps.last().1).0
        }
    }

    /// The keys of the table, in order of registration.
    pub open spec fn keys(self) -> Seq<KeyModel> {
        self.table.map_values(|entry: (KeyModel, H)| entry.0)
    }
}

/// The empty state is consistent.
pub proof fn lemma_empty_is_consistent<H>()
    ensures
        RegistryModel::<H>::empty().consistent(),
{
}

/// A lookup-or-create step keeps a consistent state consistent, as long as the
/// table's length still fits an identifier.
pub proof fn lemma_step_keeps_consistency<H>(state: RegistryModel<H>, key: KeyModel, fresh: H)
    requires
        state.consistent(),
        state.table.len() <= usize::MAX,
    ensures
        state.get_or_create(key, fresh).0.consistent(),
{
    let next = state.get_or_create(key, fresh).0;
    if !state.contains(key) {
        assert forall|i: int| 0 <= i < next.table.len() implies next.snapshot.contains_key(
            #[trigger] next.table[i].0,
        ) && next.snapshot[next.table[i].0].0 == i && next.snapshot[next.table[i].0].1
            == next.table[i].1 by {
            if i < state.table.len() {
                assert(state.snapshot.contains_key(state.table[i].0));
            }
        }
        assert forall|k: KeyModel| #[trigger] next.snapshot.contains_key(k) implies next.snapshot[k].0
            < next.table.len() && next.table[next.snapshot[k].0 as int].0 == k by {
            if k != key {
                assert(state.snapshot.contains_key(k));
            }
        }
    }
}

/// Registering is idempotent.  Once a step has been taken for `key`, every later
/// step for the same key gives the same identifier and handle, whatever handle the
/// factory would have made this time, and leaves the state as it is; a step for
/// another key in between changes nothing for `key`.
pub proof fn lemma_registration_is_idempotent<H>(
    state: RegistryModel<H>,
    key: KeyModel,
    first: H,
    other_key: KeyModel,
    other: H,
    second: H,
)
    ensures
        ({
            let (after_first, entry) = state.get_or_create(key, first);
            let (after_second, again) = after_first.get_or_create(key, second);
            let between = after_first.get_or_create(other_key, other).0;
            &&& again == entry
            &&& after_second == after_first
            &&& between.get_or_create(key, second).1 == entry
            &&& between.get_or_create(key, second).0 == between
        }),
{
}

/// Identifiers are dense and unique.  In a consistent state with `n` entries the
/// identifiers that have been given out are exactly `0..n`: each is below `n`, each
/// number below `n` has been given out, no two keys share one, and `n` is the
/// number of registered keys.
pub proof fn lemma_ids_are_dense<H>(state: RegistryModel<H>)
    requires
        state.consistent(),
    ensures
        ids_are_dense(state.snapshot, state.table.len()),
        forall|id: usize| state.issued(id) <==> id < state.table.len(),
        state.snapshot.dom().finite(),
        state.snapshot.dom().len() == state.table.len(),
{
    assert forall|id: usize| id < state.table.len() implies #[trigger] id_is_given(
        state.snapshot,
        id,
    ) by {
        let k = state.table[id as int].0;
        assert(state.snapshot.contains_key(k) && state.snapshot[k].0 == id);
    }
    assert forall|k1: KeyModel, k2: KeyModel|
        #[trigger] state.snapshot.contains_key(k1) && #[trigger] state.snapshot.contains_key(k2)
            && state.snapshot[k1].0 == state.snapshot[k2].0 implies k1 == k2 by {
        assert(state.table[state.snapshot[k1].0 as int].0 == k1);
        assert(state.table[state.snapshot[k2].0 as int].0 == k2);
    }
    let keys = state.keys();
    assert forall|i: int, j: int| 0 <= i < keys.len() && 0 <= j < keys.len() && i != j implies keys[i]
        != keys[j] by {
        assert(state.snapshot[state.table[i].0].0 == i);
        assert(state.snapshot[state.table[j].0].0 == j);
    }
    assert(keys.no_duplicates());
    assert forall|k: KeyModel| keys.to_set().contains(k) <==> state.snapshot.dom().contains(k) by {
        if keys.contains(k) {
            let i = choose|i: int| 0 <= i < keys.len() && keys[i] == k;
            assert(state.snapshot.contains_key(state.table[i].0));
        }
        if state.snapshot.contains_key(k) {
            assert(keys[state.snapshot[k].0 as int] == k);
        }
    }
    assert(keys.to_set() =~= state.snapshot.dom());
    keys.unique_seq_to_set();
    vstd::seq_lib::seq_to_set_is_finite(keys);
}

/// A step for a new key gives out the next identifier: the number of entries
/// registered so far.
pub proof fn lemma_new_key_gets_next_id<H>(state: RegistryModel<H>, key: KeyModel, fresh: H)
    requires
        state.table.len() <= usize::MAX,
        !state.contains(key),
    ensures
        state.get_or_create(key, fresh).1 == (state.table.len() as usize, fresh),
        state.get_or_create(key, fresh).0.table.len() == state.table.len() + 1,
        state.get_or_create(key, fresh).0.entry(state.table.len() as usize) == Some((key, fresh)),
{
}

/// Entries are permanent.  A step changes and removes nothing that is registered:
/// the table before is the beginning of the table after, every identifier keeps its
/// entry, and every registered key keeps its identifier and handle.
pub proof fn lemma_entries_are_permanent<H>(state: RegistryModel<H>, key: KeyModel, fresh: H)
    ensures
        state.table.is_prefix_of(state.get_or_create(key, fresh).0.table),
        forall|id: usize|
            state.entry(id) is Some ==> state.get_or_create(key, fresh).0.entry(id) == state.entry(id),
        forall|k: KeyModel|
            state.contains(k) ==> state.get_or_create(key, fresh).0.contains(k)
                && state.get_or_create(key, fresh).0.snapshot[k] == state.snapshot[k],
{
    let next = state.get_or_create(key, fresh).0;
    assert(state.table =~= next.table.subrange(0, state.table.len() as int));
}

/// An identifier that was never given out has no entry.
pub proof fn lemma_unissued_id_has_no_entry<H>(state: RegistryModel<H>, id: usize)
    requires
        state.consistent(),
        !state.issued(id),
    ensures
        state.entry(id) is None,
{
    lemma_ids_are_dense(state);
}

/// In a consistent state the entry found under a key's identifier is that key with
/// its handle.
pub proof fn lemma_entry_of_issued_id<H>(state: RegistryModel<H>, key: KeyModel)
    requires
        state.consistent(),
        state.contains(key),
    ensures
        state.entry(state.snapshot[key].0) == Some((key, state.snapshot[key].1)),
{
    let id = state.snapshot[key].0;
    assert(state.table[id as int].0 == key);
    assert(state.snapshot.contains_key(state.table[id as int].0));
}

/// A run of steps keeps a consistent state consistent, and enters at most one key
/// for each step.
pub proof fn lemma_runs_keep_consistency<H>(state: RegistryModel<H>, steps: Seq<(KeyModel, H)>)
    requires
        state.consistent(),
        state.table.len() + steps.len() <= usize::MAX,
    ensures
        state.after(steps).consistent(),
        state.table.len() <= state.after(steps).table.len() <= state.table.len() + steps.len(),
    decreases steps.len(),
{
    if steps.len() > 0 {
        lemma_runs_keep_consistency(state, steps.drop_last());
        lemma_step_keeps_consistency(
            state.after(steps.drop_last()),
            steps.last().0,
            steps.last().1,
        );
    }
}

/// Every state that is reached from the empty one by a run of steps is consistent.
/// So its identifiers are dense, by `lemma_ids_are_dense`.
pub proof fn lemma_reached_states_are_consistent<H>(steps: Seq<(KeyModel, H)>)
    requires
        steps.len() <= usize::MAX,
    ensures
        RegistryModel::<H>::empty().after(steps).consistent(),
{
    lemma_runs_keep_consistency(RegistryModel::<H>::empty(), steps);
}

/// A registered key keeps its entry for good.  Whatever steps follow, for this key
/// or for others, the key has the same identifier and handle after them, and a
/// further step for it returns that entry, whatever handle its factory would make,
/// and changes nothing.
pub proof fn lemma_entries_outlast_runs<H>(
    state: RegistryModel<H>,
    key: KeyModel,
    steps: Seq<(KeyModel, H)>,
    fresh: H,
)
    requires
        state.contains(key),
    ensures
        state.after(steps).contains(key),
        state.after(steps).snapshot[key] == state.snapshot[key],
        state.after(steps).get_or_create(key, fresh).1 == state.snapshot[key],
        state.after(steps).get_or_create(key, fresh).0 == state.after(steps),
    decreases steps.len(),
{
    if steps.len() > 0 {
        lemma_entries_outlast_runs(state, key, steps.drop_last(), fresh);
        lemma_entries_are_permanent(
            state.after(steps.drop_last()),
            steps.last().0,
            steps.last().1,
        );
    }
}

/// The identifier of a new key is the number of keys that are registered.
pub proof fn lemma_new_key_gets_number_of_keys<H>(state: RegistryModel<H>, key: KeyModel, fresh: H)
    requires
        state.consistent(),
        state.table.len() <= usize::MAX,
        !state.contains(key),
    ensures
        state.snapshot.dom().finite(),
        state.get_or_create(key, fresh).1.0 == state.snapshot.dom().len(),
        state.get_or_create(key, fresh).0.snapshot.dom().len() == state.snapshot.dom().len() + 1,
{
    lemma_ids_are_dense(state);
    lemma_step_keeps_consistency(state, key, fresh);
    lemma_ids_are_dense(state.get_or_create(key, fresh).0);
}

} // verus!
