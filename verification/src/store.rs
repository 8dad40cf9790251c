//! The pending-delivery store: a mapping from delivery identifiers to
//! message payloads, together with the next-identifier counter.
//!
//! Identifiers are assigned by incrementing the counter with wraparound
//! on overflow; the counter is not expected to exhaust its range in
//! practice, and collisions after a wraparound are a documented
//! limitation, not a crash condition.  Entries are inserted by the poll
//! loop and removed by the delivery consumer as its acknowledgment;
//! removal of an absent identifier is a no-op.

use vstd::prelude::*;
use std::collections::HashMap;

verus! {

broadcast use vstd::std_specs::hash::group_hash_axioms;

/// Successor of a delivery identifier, wrapping at the top of the range.
pub open spec fn wrap_inc(x: u64) -> u64 {
    if x == u64::MAX {
        0
    } else {
        (x + 1) as u64
    }
}

/// In-memory store of not-yet-acknowledged messages, keyed by delivery
/// identifier, plus the counter from which the next identifier is taken.
pub struct PendingStore<M> {
    next: u64,
    entries: HashMap<u64, M>,
}

impl<M> View for PendingStore<M> {
    type V = Map<u64, M>;

    closed spec fn view(&self) -> Map<u64, M> {
        self.entries@
    }
}

impl<M> PendingStore<M> {
    /// The identifier that the next insertion will be assigned.
    pub closed spec fn next_id(&self) -> u64 {
        self.next
    }

    /// A store created empty at process start, with the counter at zero.
    pub fn new() -> (s: Self)
        ensures
            s@ == Map::<u64, M>::empty(),
            s.next_id() == 0,
    {
        PendingStore { next: 0, entries: HashMap::new() }
    }

    /// An empty store whose counter resumes from a given value.
    pub fn starting_at(next: u64) -> (s: Self)
        ensures
            s@ == Map::<u64, M>::empty(),
            s.next_id() == next,
    {
        PendingStore { next, entries: HashMap::new() }
    }

    /// Assign the next identifier to `msg`, record the pair, and advance
    /// the counter with wraparound.
    pub fn insert_next(&mut self, msg: M) -> (id: u64)
        ensures
            id == old(self).next_id(),
            final(self)@ == old(self)@.insert(id, msg),
            final(self).next_id() == wrap_inc(old(self).next_id()),
    {
        let id = self.next;
        self.entries.insert(id, msg);
        self.next = if id == u64::MAX {
            0
        } else {
            id + 1
        };
        id
    }

    /// The consumer's acknowledgment: drop `id` from the store.  Removing
    /// an identifier that is already absent is a no-op, not an error.
    pub fn remove(&mut self, id: u64) -> (was_present: bool)
        ensures
            final(self)@ == old(self)@.remove(id),
            final(self).next_id() == old(self).next_id(),
            was_present == old(self)@.contains_key(id),
    {
        self.entries.remove(&id).is_some()
    }

    /// Whether `id` is still awaiting acknowledgment.
    pub fn contains(&self, id: u64) -> (r: bool)
        ensures
            r == self@.contains_key(id),
    {
        self.entries.contains_key(&id)
    }

    /// The payload recorded under `id`, if it is still pending.
    pub fn get(&self, id: u64) -> (r: Option<&M>)
        ensures
            match r {
                Some(m) => self@.contains_key(id) && *m == self@[id],
                None => !self@.contains_key(id),
            },
    {
        self.entries.get(&id)
    }

    /// How many messages are currently awaiting acknowledgment.
    pub fn len(&self) -> (n: usize)
        ensures
            n == self@.len(),
    {
        self.entries.len()
    }
}

} // verus!
