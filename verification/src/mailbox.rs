//! Single-slot handoff mailbox.
//!
//! Two instances of this primitive carry all inter-task data in the node: one
//! holds the readiness flag the bring-up task raises after clock sync, one
//! holds the latest measurement awaiting publication. A write stores its value
//! and overwrites any undelivered older one; a take returns the stored value,
//! if any, and clears the slot. Writers never block; the blocking side of
//! `wait()` is the host executor's business — it retries `take` across a
//! suspension point until a value is present.

use vstd::prelude::*;

verus! {

/// At most one undelivered value exists at any time; the newest write wins.
pub struct Mailbox<T> {
    slot: Option<T>,
}

impl<T> Mailbox<T> {
    /// The undelivered value, if any, as contracts see it.
    pub closed spec fn pending(&self) -> Option<T> {
        self.slot
    }

    /// The mailbox after a write of `v`: the slot holds `v`, whatever it held.
    pub closed spec fn after_signal(self, v: T) -> Mailbox<T> {
        Mailbox { slot: Some(v) }
    }

    /// The mailbox after a take: the slot is clear.
    pub closed spec fn after_take(self) -> Mailbox<T> {
        Mailbox { slot: None }
    }

    /// A fresh mailbox holds nothing.
    pub fn new() -> (m: Mailbox<T>)
        ensures
            m.pending() is None,
    {
        Mailbox { slot: None }
    }

    /// Stores `v`, overwriting any undelivered value.
    pub fn signal(&mut self, v: T)
        ensures
            *final(self) == old(self).after_signal(v),
            final(self).pending() == Some(v),
    {
        self.slot = Some(v);
    }

    /// Returns the undelivered value, if any, and clears the slot.
    pub fn take(&mut self) -> (r: Option<T>)
        ensures
            r == old(self).pending(),
            *final(self) == old(self).after_take(),
            final(self).pending() is None,
    {
        self.slot.take()
    }

    /// Whether an undelivered value is present.
    pub fn is_signaled(&self) -> (r: bool)
        ensures
            r == (self.pending() is Some),
    {
        self.slot.is_some()
    }
}

/// Overwrite law: writing `v1` then `v2` before any take, a subsequent take
/// delivers `v2` alone and leaves the slot clear — the mailbox is a
/// latest-wins cell, not a queue.
pub proof fn lemma_overwrite_latest_wins<T>(m: Mailbox<T>, v1: T, v2: T)
    ensures
        m.after_signal(v1).after_signal(v2).pending() == Some(v2),
        m.after_signal(v1).after_signal(v2).after_take().pending() == None::<T>,
{
}

} // verus!
