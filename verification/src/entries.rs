//! The entries of a registry, as the writer sees them.
//!
//! `Entries` is the state that a writer works on while it holds the table lock:
//! the table of entries by identifier, and the latest snapshot of the mapping from
//! keys to entries.  The two always agree.  That is an invariant of the type, so it
//! holds of every value that is ever read from behind the lock, and every change
//! is proved to keep it.

use crate::key::{Key, KeyModel};
use crate::model::{lemma_step_keeps_consistency, RegistryModel};
use crate::snapshot::Snapshot;
use std::sync::Arc;
use vstd::prelude::*;

verus! {

/// The table as the model sees it: the keys by their models, the handles by value.
pub open spec fn table_model<H>(table: Seq<(Key, &'static H)>) -> Seq<(KeyModel, H)> {
    Seq::new(table.len(), |i: int| (table[i].0@, *table[i].1))
}

/// `Box::leak`: a reference to the boxed value that stays valid for the rest of the
/// process.  The value is never freed.
#[verifier::external_body]
fn leak<H: 'static>(boxed: Box<H>) -> (r: &'static H)
    ensures
        *r == *boxed,
{
    Box::leak(boxed)
}

/// `Arc::clone`: another pointer to the same snapshot.
#[verifier::external_body]
fn share<H: 'static>(snapshot: &Arc<Snapshot<H>>) -> (r: Arc<Snapshot<H>>)
    ensures
        r == *snapshot,
{
    Arc::clone(snapshot)
}

/// The table of entries and the latest snapshot.
pub struct Entries<H: 'static> {
    /// The entries, by identifier: a key and the handle registered for it.
    table: Vec<(Key, &'static H)>,
    /// The mapping from each key of the table to its identifier and handle.
    latest: Arc<Snapshot<H>>,
}

impl<H: 'static> Entries<H> {
    /// The table: for each identifier the key and the handle as they are stored.
    pub closed spec fn table(&self) -> Seq<(Key, &'static H)> {
        self.table@
    }

    /// The latest snapshot: for each registered key its identifier and handle.
    pub closed spec fn snapshot(&self) -> Map<KeyModel, (usize, H)> {
        self.latest@
    }

    /// The registry state that these entries stand for.
    pub open spec fn model(&self) -> RegistryModel<H> {
        RegistryModel { table: table_model(self.table()), snapshot: self.snapshot() }
    }

    /// The table and the latest snapshot agree, and the snapshot keeps one handle
    /// for each entry of the table.
    #[verifier::type_invariant]
    spec fn agreed(&self) -> bool {
        &&& self.model().consistent()
        &&& self.latest.next_id() == self.table.len()
    }

    /// Entries in which nothing is registered.
    pub fn new() -> (r: Self)
        ensures
            r.model() == RegistryModel::<H>::empty(),
    {
        let r = Entries { table: Vec::new(), latest: Arc::new(Snapshot::new()) };
        assert(table_model(r.table@) =~= Seq::<(KeyModel, H)>::empty());
        r
    }

    /// Gets the entry of `key`, or creates it.
    ///
    /// A registered key keeps its identifier and handle, `f` is not called, and
    /// nothing changes.  For a new key, `f` is called with the next identifier, which
    /// is the length of the table, and with the key; the handle that it makes is
    /// given a permanent place, the entry is appended to the table, and the latest
    /// snapshot becomes one that also holds the new entry.
    pub fn get_or_create<F: FnOnce(usize, &Key) -> H>(&mut self, key: Key, f: F) -> (r: (
        usize,
        &'static H,
    ))
        requires
            !old(self).model().contains(key@) ==> call_requires(
                f,
                (old(self).model().table.len() as usize, &key),
            ),
        ensures
            old(self).model().consistent(),
            final(self).model().consistent(),
            (final(self).model(), (r.0, *r.1)) == old(self).model().get_or_create(key@, *r.1),
            !old(self).model().contains(key@) ==> call_ensures(f, (r.0, &key), *r.1),
            !old(self).model().contains(key@) ==> r.0 == old(self).model().table.len(),
            old(self).model().table.len() <= usize::MAX,
            final(self).model().table.len() <= usize::MAX,
    {
        proof {
            use_type_invariant(&*self);
        }
        if let Some(entry) = self.latest.get(&key) {
            return entry;
        }
        let id = self.table.len();
        let handle = leak(Box::new(f(id, &key)));
        proof {
            lemma_step_keeps_consistency(self.model(), key@, *handle);
        }
        // Build the new snapshot first, then change table and snapshot in one step.
        let next = Arc::new(self.latest.with_entry(key.clone(), handle));
        let mut taken = Entries::new();
        core::mem::swap(self, &mut taken);
        let mut table = taken.table;
        let ghost before = table@;
        table.push((key, handle));
        assert(table_model(table@) =~= table_model(before).push((key@, *handle)));
        *self = Entries { table, latest: next };
        (id, handle)
    }

    /// Calls `f` on the entry with identifier `id`, if there is one, and returns what
    /// `f` returned; returns `None` if no entry has that identifier.
    pub fn visit<V, F: FnOnce(&Key, &'static H) -> V>(&self, id: usize, f: F) -> (r: Option<V>)
        requires
            id < self.table().len() ==> call_requires(
                f,
                (&self.table()[id as int].0, self.table()[id as int].1),
            ),
        ensures
            self.model().consistent(),
            self.model().table.len() <= usize::MAX,
            match r {
                Some(v) => self.model().entry(id) is Some && call_ensures(
                    f,
                    (&self.table()[id as int].0, self.table()[id as int].1),
                    v,
                ),
                None => self.model().entry(id) is None,
            },
    {
        proof {
            use_type_invariant(self);
        }
        if id < self.table.len() {
            Some(f(&self.table[id].0, self.table[id].1))
        } else {
            None
        }
    }

    /// The latest snapshot: the mapping from every registered key to its identifier
    /// and handle.
    pub fn latest(&self) -> (r: Arc<Snapshot<H>>)
        ensures
            r@ == self.snapshot(),
            self.model().consistent(),
    {
        proof {
            use_type_invariant(self);
        }
        share(&self.latest)
    }
}

} // verus!
