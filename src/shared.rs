//! An immutable value owned jointly by every handle to it.
//!
//! No operation changes the value once it is wrapped, so any number of
//! holders, on any number of threads, read it without locking.

use std::sync::Arc;
use vstd::prelude::*;

verus! {

/// A handle to a value that is shared for reading.
pub struct SharedImmutableValue<T> {
    inner: Arc<T>,
}

impl<T> View for SharedImmutableValue<T> {
    type V = T;

    /// The shared value itself.
    closed spec fn view(&self) -> T {
        *self.inner
    }
}

impl<T> SharedImmutableValue<T> {
    /// Wraps `value` so that it can be shared.
    pub fn create(value: T) -> (h: Self)
        ensures
            h@ == value,
    {
        SharedImmutableValue { inner: Arc::new(value) }
    }

    /// A further handle to the same value.
    pub fn clone_handle(&self) -> (h: Self)
        ensures
            h@ == self@,
    {
        SharedImmutableValue { inner: Arc::clone(&self.inner) }
    }

    /// A read-only view of the shared value.
    pub fn read(&self) -> (r: &T)
        ensures
            *r == self@,
    {
        &*self.inner
    }
}

/// Sharing keeps the value: reading through a further handle of a handle
/// created from `v` gives `v`.
pub proof fn lemma_share_round_trip<T>(
    v: T,
    created: SharedImmutableValue<T>,
    cloned: SharedImmutableValue<T>,
    read: T,
)
    requires
        created@ == v,
        cloned@ == created@,
        read == cloned@,
    ensures
        read == v,
{
}

} // verus!
