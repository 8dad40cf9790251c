//! The retry scheduler's per-interval decision.
//!
//! For every delivered identifier an independent scheduler task sleeps
//! a fixed grace interval and then repeatedly asks [`retry_step`] what
//! to do: while the identifier is still in the pending-delivery store
//! the consumer is re-notified with a retry count one higher than
//! before, and the task sleeps the same interval again; as soon as the
//! identifier is absent (acknowledged), the task terminates silently
//! and no further notification is sent.

use vstd::prelude::*;
use crate::store::{PendingStore, wrap_inc};

verus! {

/// The fixed grace interval, in seconds, slept before the first check
/// and between re-notifications.
pub const RETRY_INTERVAL_SECS: u64 = 10;

/// What the scheduler must do after one interval's check.
#[derive(Debug, PartialEq, Eq)]
pub enum RetryAction {
    /// The identifier is still pending: re-notify the consumer with
    /// this retry count, then sleep another interval.
    Notify(u64),
    /// The identifier was acknowledged: terminate without notifying.
    Finish,
}

/// One scheduler step: `present` is whether the identifier is still in
/// the store, `retry` the count sent with the previous notification
/// (zero before the first).
pub open spec fn spec_retry_step(present: bool, retry: u64) -> RetryAction {
    if present {
        RetryAction::Notify(wrap_inc(retry))
    } else {
        RetryAction::Finish
    }
}

/// Decide one interval of the retry scheduler for `id`.
pub fn retry_step<M>(store: &PendingStore<M>, id: u64, retry: u64) -> (act: RetryAction)
    ensures
        act == spec_retry_step(store@.contains_key(id), retry),
{
    if store.contains(id) {
        let next: u64 = if retry == u64::MAX {
            0
        } else {
            retry + 1
        };
        RetryAction::Notify(next)
    } else {
        RetryAction::Finish
    }
}

/// The retry counts the scheduler emits, given a snapshot of the
/// identifier's presence in the store at each successive interval and
/// the count already sent.  Emission stops at the first interval where
/// the identifier is absent.
pub open spec fn retry_trace(present: Seq<bool>, retry: nat) -> Seq<nat>
    decreases present.len(),
{
    if present.len() == 0 || !present[0] {
        Seq::empty()
    } else {
        seq![retry + 1].add(retry_trace(present.drop_first(), retry + 1))
    }
}

/// While an identifier stays unacknowledged, the retry counts sent to
/// the consumer rise by exactly one per grace interval: after the first
/// interval the count is `retry + 1`, after the next `retry + 2`, and
/// so on.  Started from a fresh delivery (`retry = 0`), the first
/// re-notification carries count 1 and the counts grow monotonically
/// until removal.
pub proof fn lemma_retry_counts_monotonic(present: Seq<bool>, retry: nat, j: int)
    requires
        0 <= j <= present.len(),
        forall|k: int| 0 <= k < j ==> present[k],
    ensures
        retry_trace(present, retry).len() >= j,
        forall|k: int| 0 <= k < j ==> retry_trace(present, retry)[k] == retry + k + 1,
    decreases j,
{
    if j > 0 {
        assert(present[0]);
        lemma_retry_counts_monotonic(present.drop_first(), retry + 1, j - 1);
        let tail = retry_trace(present.drop_first(), retry + 1);
        let whole = retry_trace(present, retry);
        assert(whole == seq![retry + 1].add(tail));
        assert forall|k: int| 0 <= k < j implies whole[k] == retry + k + 1 by {
            if k == 0 {
                assert(whole[0] == retry + 1);
            } else {
                assert(whole[k] == tail[k - 1]);
            }
        }
    }
}

/// Once an identifier has been removed from the store, the scheduler
/// sends nothing at that interval or any later one: the trace of
/// notifications is no longer than the first interval at which the
/// identifier was observed absent.
pub proof fn lemma_removal_stops_retries(present: Seq<bool>, retry: nat, j: int)
    requires
        0 <= j < present.len(),
        !present[j],
    ensures
        retry_trace(present, retry).len() <= j,
    decreases j,
{
    if j > 0 && present[0] {
        lemma_removal_stops_retries(present.drop_first(), retry + 1, j - 1);
    }
}

/// Acknowledgment racing a scheduler check terminates the retries: in
/// whichever order a removal interleaves with a presence check (the
/// check mutates nothing), once the removal has completed the
/// identifier is absent, the next scheduler step is `Finish`, and a
/// repeated removal changes nothing further.
pub proof fn lemma_ack_race_terminates<M>(pending: Map<u64, M>, id: u64, retry: u64)
    ensures
        !pending.remove(id).contains_key(id),
        spec_retry_step(pending.remove(id).contains_key(id), retry) == RetryAction::Finish,
        pending.remove(id).remove(id) == pending.remove(id),
{
}

} // verus!
