//! A single-slot mailbox shared between one producer task and a waiting
//! consumer.
//!
//! The slot holds at most one pending value: a producer's `signal`
//! overwrites whatever was not yet consumed (last write wins, no queueing),
//! a consumer's `try_take` consumes and clears the pending value, and
//! `reset` discards a stale value before a new waiting phase begins. The
//! suspension of a waiter until a value arrives belongs to the platform
//! layer; it polls `try_take` at its suspension points.

use vstd::prelude::*;

verus! {

/// A single-slot, last-write-wins mailbox.
#[derive(Debug)]
pub struct Signal<T> {
    slot: Option<T>,
}

impl<T> Signal<T> {
    /// The value set but not yet consumed, if any.
    pub closed spec fn pending(self) -> Option<T> {
        self.slot
    }

    /// An empty mailbox.
    pub fn new() -> (s: Self)
        ensures
            s.pending() is None,
    {
        Self { slot: None }
    }

    /// Sets the value, overwriting a pending one: only the latest value
    /// survives until a waiter consumes it.
    pub fn signal(&mut self, value: T)
        ensures
            final(self).pending() == Some(value),
    {
        self.slot = Some(value);
    }

    /// Discards any pending value, so that a new waiting phase cannot be
    /// satisfied by a stale one.
    pub fn reset(&mut self)
        ensures
            final(self).pending() is None,
    {
        self.slot = None;
    }

    /// Consumes and clears the pending value; the waiter suspends (and
    /// polls again) as long as this returns nothing.
    pub fn try_take(&mut self) -> (r: Option<T>)
        ensures
            r == old(self).pending(),
            final(self).pending() is None,
    {
        self.slot.take()
    }
}

} // verus!
