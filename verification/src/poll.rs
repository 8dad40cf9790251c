//! The poll loop's per-iteration decision.
//!
//! Each iteration of the loop waits on the transport inside a fault
//! boundary and then hands the outcome to [`poll_step`]: a yielded
//! message is recorded in the pending-delivery store under a fresh
//! identifier and answered with a delivery action; an empty poll
//! continues immediately; a permanent-stop signal ends the loop; a
//! caught fault is answered with a recovery action (log and continue),
//! leaving the store untouched so that later deliveries are unaffected.

use vstd::prelude::*;
use vstd::arithmetic::div_mod::{
    lemma_add_mod_noop_right, lemma_mod_equivalence, lemma_mod_self_0, lemma_small_mod,
};
use crate::store::{PendingStore, wrap_inc};

verus! {

/// What one transport wait can yield: a message, nothing (keep
/// polling), or the permanent-stop signal.
#[derive(Debug)]
pub enum PollResult<M> {
    Cont(Option<M>),
    Stop,
}

/// What the loop must do after one iteration's decision.
#[derive(Debug, PartialEq, Eq)]
pub enum LoopAction {
    /// Notify the consumer with `(id, retry = 0)` and spawn the retry
    /// scheduler for `id`, both outside the store's lock.
    Deliver(u64),
    /// Nothing was yielded: poll again immediately.
    Continue,
    /// The transport signalled permanent stop: leave the loop.
    Stop,
    /// A fault was caught; log the recovered detail, if any, and poll
    /// again.  A single faulty receive never stops future deliveries.
    Recover(Option<String>),
}

/// One poll-loop step over the store's model: the new pending map, the
/// new counter, and the action owed for this iteration.  `Err` is a
/// fault caught by the loop's fault boundary, carrying whatever
/// descriptive detail could be recovered from it.
pub open spec fn spec_poll_step<M>(
    pending: Map<u64, M>,
    next: u64,
    poll: Result<PollResult<M>, Option<String>>,
) -> (Map<u64, M>, u64, LoopAction) {
    match poll {
        Ok(PollResult::Cont(Some(m))) => (
            pending.insert(next, m),
            wrap_inc(next),
            LoopAction::Deliver(next),
        ),
        Ok(PollResult::Cont(None)) => (pending, next, LoopAction::Continue),
        Ok(PollResult::Stop) => (pending, next, LoopAction::Stop),
        Err(detail) => (pending, next, LoopAction::Recover(detail)),
    }
}

/// Decide one iteration of the poll loop.  A yielded message is
/// inserted under the next identifier before the delivery action is
/// returned, so insertion happens-before notification; every other
/// outcome leaves the store unchanged.
pub fn poll_step<M>(
    store: &mut PendingStore<M>,
    poll: Result<PollResult<M>, Option<String>>,
) -> (act: LoopAction)
    ensures
        (final(store)@, final(store).next_id(), act)
            == spec_poll_step(old(store)@, old(store).next_id(), poll),
{
    match poll {
        Ok(PollResult::Cont(Some(msg))) => {
            let id = store.insert_next(msg);
            LoopAction::Deliver(id)
        }
        Ok(PollResult::Cont(None)) => LoopAction::Continue,
        Ok(PollResult::Stop) => LoopAction::Stop,
        Err(detail) => LoopAction::Recover(detail),
    }
}

/// The identifier assigned by the `k`-th insertion after the counter
/// stood at `base`: addition modulo the size of the identifier space.
pub open spec fn wrap_add(base: u64, k: nat) -> u64 {
    ((base + k) % 0x1_0000_0000_0000_0000) as u64
}

/// Stepping the counter once agrees with modular addition.
pub proof fn lemma_wrap_add_succ(base: u64, k: nat)
    ensures
        wrap_add(wrap_inc(base), k) == wrap_add(base, k + 1),
{
    let m: int = 0x1_0000_0000_0000_0000;
    assert(wrap_inc(base) == (base + 1) % m) by {
        if base == u64::MAX {
            lemma_mod_self_0(m);
        } else {
            lemma_small_mod((base + 1) as nat, m as nat);
        }
    }
    lemma_add_mod_noop_right(k as int, base + 1, m);
}

/// The model of a whole run of the poll loop: fold the per-iteration
/// step over a sequence of transport outcomes, collecting the action
/// owed for each iteration in order.
pub open spec fn spec_run<M>(
    pending: Map<u64, M>,
    next: u64,
    polls: Seq<Result<PollResult<M>, Option<String>>>,
) -> (Map<u64, M>, u64, Seq<LoopAction>)
    decreases polls.len(),
{
    if polls.len() == 0 {
        (pending, next, Seq::empty())
    } else {
        let (p1, n1, a1) = spec_poll_step(pending, next, polls[0]);
        let (p2, n2, rest) = spec_run(p1, n1, polls.drop_first());
        (p2, n2, seq![a1].add(rest))
    }
}

/// In a fault-free run in which every poll yields a message, the
/// consumer is owed exactly one initial delivery per yield, in receipt
/// order: the `k`-th iteration's action is a delivery (sent with retry
/// count zero) of the `k`-th identifier after the starting counter.
pub proof fn lemma_all_yields_delivered<M>(
    pending: Map<u64, M>,
    next: u64,
    polls: Seq<Result<PollResult<M>, Option<String>>>,
)
    requires
        forall|k: int|
            0 <= k < polls.len() ==> (#[trigger] polls[k]) matches Ok(PollResult::Cont(Some(_))),
    ensures
        ({
            let (p2, n2, acts) = spec_run(pending, next, polls);
            &&& acts.len() == polls.len()
            &&& forall|k: int|
                0 <= k < polls.len() ==> acts[k] == LoopAction::Deliver(wrap_add(next, k as nat))
            &&& n2 == wrap_add(next, polls.len())
        }),
    decreases polls.len(),
{
    let m: int = 0x1_0000_0000_0000_0000;
    assert(wrap_add(next, 0) == next) by {
        lemma_small_mod(next as nat, m as nat);
    }
    if polls.len() > 0 {
        assert(polls[0] matches Ok(PollResult::Cont(Some(_))));
        let (p1, n1, a1) = spec_poll_step(pending, next, polls[0]);
        let rest = polls.drop_first();
        lemma_all_yields_delivered(p1, n1, rest);
        let (p2, n2, tail) = spec_run(p1, n1, rest);
        let acts = spec_run(pending, next, polls).2;
        assert(acts == seq![a1].add(tail));
        assert forall|k: nat| wrap_add(n1, k) == wrap_add(next, k + 1) by {
            lemma_wrap_add_succ(next, k);
        }
        assert forall|k: int|
            0 <= k < polls.len() implies acts[k] == LoopAction::Deliver(
            wrap_add(next, k as nat),
        ) by {
            if k == 0 {
                assert(acts[0] == a1);
            } else {
                assert(acts[k] == tail[k - 1]);
                assert(tail[k - 1] == LoopAction::Deliver(wrap_add(n1, (k - 1) as nat)));
            }
        }
    }
}

/// Identifier assignment is strictly increasing in program order as
/// long as the counter does not pass the top of its range.
pub proof fn lemma_ids_strictly_increasing(base: u64, i: nat, j: nat)
    requires
        i < j,
        base + j <= u64::MAX,
    ensures
        wrap_add(base, i) < wrap_add(base, j),
{
    let m: int = 0x1_0000_0000_0000_0000;
    lemma_small_mod((base + i) as nat, m as nat);
    lemma_small_mod((base + j) as nat, m as nat);
}

/// Across a wraparound boundary the order is lost, but identifiers
/// remain distinct as long as fewer insertions separate the two than
/// the size of the identifier space.
pub proof fn lemma_ids_distinct(base: u64, i: nat, j: nat)
    requires
        i < j,
        j - i < 0x1_0000_0000_0000_0000,
    ensures
        wrap_add(base, i) != wrap_add(base, j),
{
    let m: int = 0x1_0000_0000_0000_0000;
    if wrap_add(base, i) == wrap_add(base, j) {
        lemma_mod_equivalence(base + j, base + i, m);
        assert(((base + j) - (base + i)) % m == 0);
        lemma_small_mod((j - i) as nat, m as nat);
        assert(false);
    }
}

/// A delivery is owed exactly when the transport yields a message, and
/// the yielded payload stands in the store under the delivered
/// identifier as soon as the step completes: insertion happens-before
/// the notification the action calls for.
pub proof fn lemma_delivery_follows_insertion<M>(
    pending: Map<u64, M>,
    next: u64,
    poll: Result<PollResult<M>, Option<String>>,
)
    ensures
        ({
            let (p1, n1, act) = spec_poll_step(pending, next, poll);
            &&& (act matches LoopAction::Deliver(id)) <==> (poll matches Ok(
                PollResult::Cont(Some(_))))
            &&& (poll matches Ok(PollResult::Cont(Some(m))) ==> act == LoopAction::Deliver(next)
                && p1.contains_key(next) && p1[next] == m)
        }),
{
}

/// A transient fault on one iteration is invisible to the next: the
/// recovery action leaves the store's map and counter untouched, so
/// the following poll produces exactly the step it would have produced
/// had the fault not happened.
pub proof fn lemma_fault_transparent<M>(
    pending: Map<u64, M>,
    next: u64,
    detail: Option<String>,
    poll: Result<PollResult<M>, Option<String>>,
)
    ensures
        spec_poll_step(pending, next, Err(detail))
            == (pending, next, LoopAction::Recover(detail)),
        ({
            let (p1, n1, _) = spec_poll_step(pending, next, Err(detail));
            spec_poll_step(p1, n1, poll) == spec_poll_step(pending, next, poll)
        }),
{
}

} // verus!
