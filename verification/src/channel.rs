//! Coalescing single-slot broadcast: one writer overwrites or clears its
//! latest value, and each consumer's non-blocking poll returns a value at
//! most once. Latest value wins, nothing queues, and an explicit clear
//! means absence.

use vstd::prelude::*;

verus! {

/// The writer's end of a slot: the current value, if any, and a version
/// that counts every send and every clear.
#[derive(Debug)]
pub struct Broadcast<T> {
    pub value: Option<T>,
    pub version: u64,
}

/// One consumer's state for a slot: the slot version it has already
/// observed.
#[derive(Clone, Copy, Debug)]
pub struct Receiver {
    pub last_seen: u64,
}

/// What a poll returns: the slot's value exactly when the consumer has
/// not yet seen this version, and nothing otherwise — in particular
/// nothing from a cleared slot, whatever it held before.
pub open spec fn poll_spec<T>(slot: Broadcast<T>, last_seen: u64) -> Option<T> {
    if slot.version != last_seen {
        slot.value
    } else {
        Option::None
    }
}

impl<T: Copy> Broadcast<T> {
    /// An empty slot in which no consumer finds anything.
    pub fn new() -> (r: Broadcast<T>)
        ensures
            r.value is None,
            r.version == 0,
    {
        Broadcast { value: Option::None, version: 0 }
    }

    /// Publishes `v`, unconditionally superseding any unconsumed value.
    pub fn send(&mut self, v: T)
        requires
            old(self).version < u64::MAX,
        ensures
            final(self).value == Option::Some(v),
            final(self).version == old(self).version + 1,
    {
        self.value = Option::Some(v);
        self.version = self.version + 1;
    }

    /// Empties the slot, so every consumer observes "no data" until the
    /// next send.
    pub fn clear(&mut self)
        requires
            old(self).version < u64::MAX,
        ensures
            final(self).value is None,
            final(self).version == old(self).version + 1,
    {
        self.value = Option::None;
        self.version = self.version + 1;
    }
}

impl Receiver {
    /// A consumer that has observed nothing yet.
    pub fn new() -> (r: Receiver)
        ensures
            r.last_seen == 0,
    {
        Receiver { last_seen: 0 }
    }

    /// Non-blocking poll: the newest value this consumer has not seen, or
    /// nothing when the slot is unchanged since the last poll or stands
    /// cleared. Either way the consumer is caught up afterwards.
    pub fn poll<T: Copy>(&mut self, slot: &Broadcast<T>) -> (r: Option<T>)
        ensures
            r == poll_spec(*slot, old(self).last_seen),
            final(self).last_seen == slot.version,
    {
        if slot.version != self.last_seen {
            self.last_seen = slot.version;
            slot.value
        } else {
            Option::None
        }
    }
}

/// Law: a consumer already caught up with the slot's version finds
/// nothing new — so a second poll of an un-updated slot yields nothing —
/// and a cleared slot yields nothing to any consumer, whatever it held
/// before the clear.
pub proof fn lemma_poll_idempotent<T>(slot: Broadcast<T>)
    ensures
        poll_spec(slot, slot.version) is None,
        slot.value is None ==> forall|ls: u64| #[trigger] poll_spec(slot, ls) is None,
{
}

} // verus!
