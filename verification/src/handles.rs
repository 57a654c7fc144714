//! Proxies between a call site and the recorder behind it.
//!
//! A handle holds one reference to an object that can take a measurement, and
//! forwards to it.  A handle made by `default` forwards to an object that discards
//! what it is given, so a call site needs no test for a missing recorder.

use vstd::prelude::*;

verus! {

/// Something that counts.  What an implementation does with the amounts that it is
/// given is its own affair.
pub trait Counter {
    /// Takes note that the counter went up by `value`.
    fn increment_counter(&self, value: u64);
}

/// A counter that discards what it is given.
struct NoopCounter;

impl Counter for NoopCounter {
    fn increment_counter(&self, _value: u64) {
    }
}

/// A counter handle.
pub struct CounterHandle(&'static dyn Counter);

impl CounterHandle {
    /// Increment the counter by the given amount.
    pub fn increment_counter(&self, value: u64) {
        self.0.increment_counter(value);
    }
}

impl Default for CounterHandle {
    /// A handle that discards what it is given.
    fn default() -> (r: CounterHandle) {
        CounterHandle(&NoopCounter)
    }
}

impl<T: Counter> From<&'static T> for CounterHandle {
    /// A handle that forwards to `from`.
    fn from(from: &'static T) -> (r: CounterHandle) {
        CounterHandle(from)
    }
}

impl<T: Counter> vstd::std_specs::convert::FromSpecImpl<&'static T> for CounterHandle {
    open spec fn obeys_from_spec() -> bool {
        true
    }

    closed spec fn from_spec(v: &'static T) -> CounterHandle {
        CounterHandle(v)
    }
}

} // verus!
