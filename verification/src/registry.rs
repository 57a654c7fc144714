//! The registry: a concurrent store that gives every distinct key an identifier
//! and a handle that lives as long as the process.
//!
//! Readers find a registered key in the published snapshot without taking a lock.
//! New keys are entered under a writer lock, one at a time: the entry is appended
//! to the table, a snapshot with the new entry is built from the previous one, and
//! that snapshot is published in one atomic step.
//!
//! What a call returns depends on what other threads have published, so the
//! methods of `Registry` state only what holds whatever the shared state was.  The
//! steps that they are made of, `Snapshot::get`, `Snapshot::handle_map`,
//! `Entries::get_or_create` and `Entries::visit`, take the state that they work on
//! as an argument and state exactly what they do with it.

use crate::entries::Entries;
use crate::key::Key;
use crate::snapshot::{maps_handles, Snapshot};
use crossbeam_utils::sync::{ShardedLock, ShardedLockReadGuard, ShardedLockWriteGuard};
use std::collections::HashMap;
use std::sync::Arc;
use vstd::prelude::*;

verus! {

/// `crossbeam_utils::sync::ShardedLock`, a reader-writer lock.  Nothing is known
/// of what it holds.
#[verifier::external_type_specification]
#[verifier::external_body]
#[verifier::reject_recursive_types(T)]
pub struct ExShardedLock<T: ?Sized>(ShardedLock<T>);

/// The guard that `ShardedLock::write` returns.  Dropping it releases the lock.
#[verifier::external_type_specification]
#[verifier::external_body]
#[verifier::reject_recursive_types(T)]
pub struct ExShardedLockWriteGuard<'a, T: ?Sized>(ShardedLockWriteGuard<'a, T>);

/// The guard that `ShardedLock::read` returns.  Dropping it releases the lock.
#[verifier::external_type_specification]
#[verifier::external_body]
#[verifier::reject_recursive_types(T)]
pub struct ExShardedLockReadGuard<'a, T: ?Sized>(ShardedLockReadGuard<'a, T>);

/// `parking_lot::RawMutex`, the lock inside a `parking_lot::Mutex`.
#[verifier::external_type_specification]
#[verifier::external_body]
pub struct ExRawMutex(parking_lot::RawMutex);

/// `lock_api::Mutex`, of which `parking_lot::Mutex` is an instance.
#[verifier::external_type_specification]
#[verifier::external_body]
#[verifier::reject_recursive_types(R)]
#[verifier::reject_recursive_types(T)]
pub struct ExMutex<R, T: ?Sized>(parking_lot::lock_api::Mutex<R, T>);

/// The cell that holds the published snapshot: an `arc_swap::ArcSwap`, whose
/// content is replaced atomically and read without a lock.  The strategy type among
/// its parameters is private to `arc_swap`, so Verus is shown this struct and
/// nothing of what is inside.
#[verifier::external_body]
#[verifier::reject_recursive_types(H)]
struct Published<H: 'static> {
    cell: arc_swap::ArcSwap<Snapshot<H>>,
}

/// A published snapshot while it is read: an `arc_swap::Guard`, which keeps the
/// snapshot alive until it is dropped.  Verus is shown nothing of what is inside,
/// for the same reason as with `Published`.
#[verifier::external_body]
#[verifier::reject_recursive_types(H)]
struct Loaded<H: 'static> {
    guard: arc_swap::Guard<Arc<Snapshot<H>>>,
}

/// The writer lock while it is held: a `parking_lot::MutexGuard`, which releases
/// the lock when it is dropped.  The guard's type is bound by a trait of `lock_api`,
/// so Verus is shown this struct and nothing of what is inside.
#[verifier::external_body]
struct WriterGuard<'a> {
    guard: parking_lot::MutexGuard<'a, ()>,
}

/// `ArcSwapAny::new`: a cell that publishes `snapshot`.
#[verifier::external_body]
fn published_new<H: 'static>(snapshot: Arc<Snapshot<H>>) -> (r: Published<H>) {
    Published { cell: arc_swap::ArcSwap::new(snapshot) }
}

/// `ArcSwapAny::load`: the snapshot that is published at the moment of the call.  It
/// takes no lock.  Which snapshot that is depends on the stores of other threads,
/// so nothing is stated of it.
#[verifier::external_body]
fn published_load<H: 'static>(published: &Published<H>) -> (r: Loaded<H>) {
    Loaded { guard: published.cell.load() }
}

/// `Deref` of the guard and of the `Arc` in it: the snapshot that was loaded.
#[verifier::external_body]
fn loaded_snapshot<'a, H: 'static>(loaded: &'a Loaded<H>) -> (r: &'a Snapshot<H>) {
    &**loaded.guard
}

/// `ArcSwapAny::store`: publishes `snapshot` in place of the current one.
#[verifier::external_body]
fn published_store<H: 'static>(published: &Published<H>, snapshot: Arc<Snapshot<H>>) {
    published.cell.store(snapshot)
}

/// `parking_lot::Mutex::new`: a writer lock that nobody holds.
#[verifier::external_body]
fn writer_lock_new() -> (r: parking_lot::Mutex<()>) {
    parking_lot::Mutex::new(())
}

/// `parking_lot::Mutex::lock`: blocks until the writer lock is free and takes it.
/// It does not return if the calling thread holds the lock already.
#[verifier::external_body]
fn writer_lock_acquire<'a>(lock: &'a parking_lot::Mutex<()>) -> (r: WriterGuard<'a>) {
    WriterGuard { guard: lock.lock() }
}

/// `ShardedLock::new`: a reader-writer lock around `entries`.
#[verifier::external_body]
fn table_lock_new<H: 'static>(entries: Entries<H>) -> (r: ShardedLock<Entries<H>>) {
    ShardedLock::new(entries)
}

/// `ShardedLock::write`: blocks until the entries can be had exclusively.  Panics if
/// the lock is poisoned, that is if a thread panicked while it held the lock for
/// writing.
#[verifier::external_body]
fn table_lock_write<'a, H: 'static>(lock: &'a ShardedLock<Entries<H>>) -> (r: ShardedLockWriteGuard<
    'a,
    Entries<H>,
>) {
    lock.write().expect("handles write lock was poisoned!")
}

/// `ShardedLock::read`: blocks until the entries can be read.  Panics if the lock is
/// poisoned.
#[verifier::external_body]
fn table_lock_read<'a, H: 'static>(lock: &'a ShardedLock<Entries<H>>) -> (r: ShardedLockReadGuard<
    'a,
    Entries<H>,
>) {
    lock.read().expect("handles read lock was poisoned!")
}

/// `DerefMut` of the write guard: the entries that the guard protects.  What they
/// hold depends on the writers before, so nothing is stated of them.
#[verifier::external_body]
fn guarded_entries_mut<'a, 'b, H: 'static>(guard: &'b mut ShardedLockWriteGuard<'a, Entries<H>>) -> (r:
    &'b mut Entries<H>) {
    &mut *guard
}

/// `Deref` of the read guard: the entries that the guard protects.
#[verifier::external_body]
fn guarded_entries<'a, 'b, H: 'static>(guard: &'b ShardedLockReadGuard<'a, Entries<H>>) -> (r: &'b Entries<H>) {
    &*guard
}

/// A metric registry.
///
/// `Registry` keeps a central listing of handles by key.  It removes duplicates:
/// a caller that registers a key again gets the identifier and the handle that the
/// key already has.  Handles are opaque to the registry, and are kept for the rest
/// of the process.
///
/// `Registry` is optimised for reads.
#[verifier::reject_recursive_types(H)]
pub struct Registry<H: 'static> {
    mappings: Published<H>,
    handles: ShardedLock<Entries<H>>,
    lock: parking_lot::Mutex<()>,
}

impl<H: 'static> Registry<H> {
    /// Creates a new `Registry`, in which nothing is registered.
    pub fn new() -> (r: Self) {
        let entries = Entries::new();
        Registry {
            mappings: published_new(entries.latest()),
            handles: table_lock_new(entries),
            lock: writer_lock_new(),
        }
    }

    /// Gets or creates the handle of a key.
    ///
    /// If the key is not registered yet, the handle is made by calling `f` with the
    /// key's new identifier, and is stored for the rest of the process.  Else `f` is
    /// not called.  Returns the key's identifier and its handle.
    ///
    /// `f` must not call into this registry: it runs while the locks are held.
    ///
    /// Which of the two happens depends on what other threads have entered.  Either
    /// way the pair that is returned is what `f` made for that identifier and this
    /// key, or the entry of this key in a snapshot.
    pub fn get_or_create_handle<F: FnOnce(usize, &Key) -> H>(&self, key: Key, f: F) -> (r: (
        usize,
        &'static H,
    ))
        requires
            forall|id: usize| call_requires(f, (id, &key)),
        ensures
            call_ensures(f, (r.0, &key), *r.1) || exists|found: Snapshot<H>|
                #[trigger] found@.contains_key(key@) && found@[key@] == (r.0, *r.1),
    {
        // Look in the published snapshot first.
        {
            let published = published_load(&self.mappings);
            if let Some(entry) = loaded_snapshot(&published).get(&key) {
                return entry;
            }
        }
        // Take control of the registry.
        let _writer = writer_lock_acquire(&self.lock);

        // Look again, in case someone has just entered the key.
        {
            let published = published_load(&self.mappings);
            if let Some(entry) = loaded_snapshot(&published).get(&key) {
                return entry;
            }
        }
        // Enter the key, then publish the snapshot that holds it.
        let ghost wanted = key@;
        let (entry, next) = {
            let mut table_guard = table_lock_write(&self.handles);
            let entries = guarded_entries_mut(&mut table_guard);
            let ghost before = entries.model();
            let entry = entries.get_or_create(key, f);
            let next = entries.latest();
            proof {
                if before.contains(wanted) {
                    assert((*next)@.contains_key(wanted) && (*next)@[wanted] == (entry.0, *entry.1));
                }
            }
            (entry, next)
        };
        published_store(&self.mappings, next);
        entry
    }

    /// Calls `f` on the key and the handle with identifier `id`, and returns what it
    /// returned, or `None` if no entry has that identifier.
    ///
    /// `f` must not call into this registry: it runs while the table is locked.
    pub fn with_handle<V, F: FnOnce(&Key, &'static H) -> V>(&self, id: usize, f: F) -> (r: Option<V>)
        requires
            forall|key: &Key, handle: &'static H| call_requires(f, (key, handle)),
        ensures
            r is Some ==> exists|key: &Key, handle: &'static H|
                call_ensures(f, (key, handle), r.unwrap()),
    {
        let table_guard = table_lock_read(&self.handles);
        guarded_entries(&table_guard).visit(id, f)
    }

    /// Takes a snapshot of all handles that are registered at the moment.
    ///
    /// The map is that of the snapshot which is published at the moment of the call:
    /// each of its keys with the handle registered under it, no key twice, and as
    /// many entries as the snapshot has keys.
    pub fn get_handles(&self) -> (r: HashMap<Key, &'static H>)
        ensures
            exists|found: Snapshot<H>|
                #[trigger] maps_handles(r@, found@) && found@.dom().finite() && r.len()
                    == found@.dom().len(),
    {
        let published = published_load(&self.mappings);
        let found = loaded_snapshot(&published);
        let r = found.handle_map();
        assert(maps_handles(r@, (*found)@) && (*found)@.dom().finite() && r.len() == (*found)@.dom().len());
        r
    }
}

} // verus!
