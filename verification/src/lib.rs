//! A metrics registry: keys made of a name and an ordered list of labels, and a
//! concurrent store that gives every distinct key a dense identifier and a
//! handle that lives as long as the process.
//!
//! - `key`: keys and labels, and what makes two keys the same key.
//! - `model`: the registry as a mathematical object, and the laws that hold of it.
//! - `snapshot`: immutable snapshots of the mapping from keys to entries.
//! - `entries`: the table of entries and the latest snapshot, which always agree.
//! - `registry`: the store itself, with its locks and its published snapshot.
//! - `handles`: proxies through which measurements reach a recorder.
//! - `common`: strings that may be static or owned, and a cell that is filled once.

pub mod common;
pub mod entries;
pub mod handles;
pub mod key;
pub mod model;
pub mod registry;
pub mod snapshot;

pub use common::{OnceCell, ScopedString};
pub use key::{IntoLabels, Key, Label, ToLabel, ToScoped};
pub use registry::Registry;
