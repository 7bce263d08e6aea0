//! Laws of the task-group model: what holds of every sequence of
//! operations, proved over the transition function of [`crate::state`].

use vstd::prelude::*;

use crate::group::Stopper;
use crate::state::{GroupView, Op, op_enabled, step};

verus! {

/// The state a trace of operations leads to, applied in order from `s`.
pub open spec fn apply_trace(s: GroupView, t: Seq<Op>) -> GroupView
    decreases t.len(),
{
    if t.len() == 0 {
        s
    } else {
        step(apply_trace(s, t.drop_last()), t.last())
    }
}

/// Every operation of `t` is enabled in the state it is applied to.
pub open spec fn trace_enabled(s: GroupView, t: Seq<Op>) -> bool
    decreases t.len(),
{
    if t.len() == 0 {
        true
    } else {
        trace_enabled(s, t.drop_last()) && op_enabled(apply_trace(s, t.drop_last()), t.last())
    }
}

/// How many tasks a trace registers.
pub open spec fn spawns(t: Seq<Op>) -> nat
    decreases t.len(),
{
    if t.len() == 0 {
        0
    } else {
        spawns(t.drop_last()) + (if t.last() is Spawn {
            1nat
        } else {
            0nat
        })
    }
}

/// How many guards a trace releases.
pub open spec fn releases(t: Seq<Op>) -> nat
    decreases t.len(),
{
    if t.len() == 0 {
        0
    } else {
        releases(t.drop_last()) + (if t.last() is Release {
            1nat
        } else {
            0nat
        })
    }
}

/// Law: the live-task count is exactly the balance of registrations over
/// releases — no other operation moves it.
pub proof fn lemma_live_balance(s: GroupView, t: Seq<Op>)
    requires
        trace_enabled(s, t),
    ensures
        apply_trace(s, t).live == s.live + spawns(t) - releases(t),
    decreases t.len(),
{
    if t.len() > 0 {
        lemma_live_balance(s, t.drop_last());
    }
}

/// Law: the drained latch never reverts. Once a group reports drained, it
/// reports drained after any further operations — so a resolved drain
/// waiter, polled again and again, sees the same terminal outcome.
pub proof fn lemma_drained_monotone(s: GroupView, t: Seq<Op>)
    requires
        s.drained,
    ensures
        apply_trace(s, t).drained,
    decreases t.len(),
{
    if t.len() > 0 {
        lemma_drained_monotone(s, t.drop_last());
    }
}

/// Law: the subscription registry never shrinks, so a subscription token,
/// once handed out, stays valid forever.
pub proof fn lemma_subs_len_monotone(s: GroupView, t: Seq<Op>)
    ensures
        apply_trace(s, t).subs.len() >= s.subs.len(),
    decreases t.len(),
{
    if t.len() > 0 {
        lemma_subs_len_monotone(s, t.drop_last());
    }
}

/// Law: a fired subscription stays fired, whatever else happens to the
/// group.
pub proof fn lemma_sub_fired_monotone(s: GroupView, t: Seq<Op>, i: int)
    requires
        0 <= i < s.subs.len(),
        s.subs[i],
    ensures
        i < apply_trace(s, t).subs.len(),
        apply_trace(s, t).subs[i],
    decreases t.len(),
{
    if t.len() > 0 {
        lemma_sub_fired_monotone(s, t.drop_last(), i);
    }
}

/// Law (idempotence): stopping twice is the same as stopping once — a
/// repeated stop broadcast changes nothing further.
pub proof fn lemma_stop_idempotent(s: GroupView)
    ensures
        step(step(s, Op::Stop), Op::Stop) == step(s, Op::Stop),
{
    assert(step(step(s, Op::Stop), Op::Stop).subs =~= step(s, Op::Stop).subs);
    assert(step(step(s, Op::Stop), Op::Stop) =~= step(s, Op::Stop));
}

/// Law (idempotence, signal side): a shutdown signal that has resolved
/// reports the same terminal outcome on every later poll, whatever else
/// happens to the group; its token also stays valid.
pub proof fn lemma_stopper_resolution_stable(p: Stopper, s: GroupView, t: Seq<Op>)
    requires
        p.valid_for(s),
        p.resolved(s),
    ensures
        p.valid_for(apply_trace(s, t)),
        p.resolved(apply_trace(s, t)),
    decreases t.len(),
{
    if t.len() > 0 {
        lemma_stopper_resolution_stable(p, s, t.drop_last());
    }
}

/// Law (broadcast): a stop broadcast resolves every signal whose
/// subscription already exists, and it alone moves neither the live-task
/// count nor the drained latch.
pub proof fn lemma_stop_resolves_subscribed(p: Stopper, s: GroupView)
    requires
        p.valid_for(s),
    ensures
        p.resolved(step(s, Op::Stop)),
        step(s, Op::Stop).live == s.live,
        step(s, Op::Stop).drained == s.drained,
{
}

/// Law (drain correctness, completion side): starting from a fresh group,
/// a trace that registers N ≥ 1 tasks and releases all N guards — in any
/// order, with any stops and subscriptions interleaved — ends drained with
/// no live task. A drain waiter polled then is ready.
pub proof fn lemma_drained_after_full_release(t: Seq<Op>)
    requires
        trace_enabled(GroupView::initial(), t),
        spawns(t) == releases(t),
        releases(t) >= 1,
    ensures
        apply_trace(GroupView::initial(), t).drained,
        apply_trace(GroupView::initial(), t).live == 0,
    decreases t.len(),
{
    let s0 = GroupView::initial();
    lemma_live_balance(s0, t);
    let p = t.drop_last();
    match t.last() {
        Op::Release => {
            lemma_live_balance(s0, p);
        },
        Op::Spawn => {
            lemma_live_balance(s0, p);
            assert(false);
        },
        Op::Stop => {
            lemma_drained_after_full_release(p);
        },
        Op::Subscribe => {
            lemma_drained_after_full_release(p);
        },
    }
}

/// Whether some release along `t` (run from `s`) brought the live count to
/// zero — the only event that can flip the drained latch.
pub open spec fn crossed_zero(s: GroupView, t: Seq<Op>) -> bool
    decreases t.len(),
{
    if t.len() == 0 {
        false
    } else {
        crossed_zero(s, t.drop_last()) || (t.last() is Release && apply_trace(s, t).live == 0)
    }
}

/// Law (drain characterization): a group run from fresh is drained exactly
/// when some release along the way brought the live count to zero — the
/// flip happens on that release and, by [`lemma_drained_monotone`], never
/// reverts.
pub proof fn lemma_drained_iff_crossed_zero(t: Seq<Op>)
    requires
        trace_enabled(GroupView::initial(), t),
    ensures
        apply_trace(GroupView::initial(), t).drained == crossed_zero(GroupView::initial(), t),
    decreases t.len(),
{
    if t.len() > 0 {
        lemma_drained_iff_crossed_zero(t.drop_last());
    }
}

/// Helper for the safety corollary: under the "always outstanding"
/// hypothesis no release ever brings the live count to zero.
proof fn lemma_outstanding_means_no_crossing(t: Seq<Op>)
    requires
        trace_enabled(GroupView::initial(), t),
        forall|k: int|
            0 <= k <= t.len() && releases(#[trigger] t.take(k)) >= 1 ==> releases(t.take(k))
                < spawns(t.take(k)),
    ensures
        !crossed_zero(GroupView::initial(), t),
    decreases t.len(),
{
    let s0 = GroupView::initial();
    if t.len() > 0 {
        let p = t.drop_last();
        assert forall|k: int|
            0 <= k <= p.len() && releases(#[trigger] p.take(k)) >= 1 implies releases(p.take(k))
            < spawns(p.take(k)) by {
            assert(p.take(k) =~= t.take(k));
        }
        lemma_outstanding_means_no_crossing(p);
        if t.last() is Release {
            assert(t.take(t.len() as int) =~= t);
            assert(releases(t) < spawns(t));
            lemma_live_balance(s0, t);
        }
    }
}

/// Law (drain correctness, user-facing safety corollary): whenever, at
/// every point of the trace at which at least one guard has been released,
/// strictly more tasks had been registered than released — some task is
/// always still outstanding — the group never drains, so a drain waiter
/// stays pending.
pub proof fn lemma_outstanding_task_blocks_drain(t: Seq<Op>)
    requires
        trace_enabled(GroupView::initial(), t),
        forall|k: int|
            0 <= k <= t.len() && releases(#[trigger] t.take(k)) >= 1 ==> releases(t.take(k))
                < spawns(t.take(k)),
    ensures
        !apply_trace(GroupView::initial(), t).drained,
{
    lemma_outstanding_means_no_crossing(t);
    lemma_drained_iff_crossed_zero(t);
}

/// Law (zero-task barrier): a fresh group is not drained — a drain waiter
/// obtained before any task is registered stays pending — yet registering
/// and releasing one single task drains the group.
pub proof fn lemma_zero_task_barrier()
    ensures
        !GroupView::initial().drained,
        apply_trace(GroupView::initial(), seq![Op::Spawn, Op::Release]).drained,
{
    let s0 = GroupView::initial();
    let t = seq![Op::Spawn, Op::Release];
    let t1 = seq![Op::Spawn];
    assert(t.drop_last() =~= t1);
    assert(t1.drop_last() =~= Seq::<Op>::empty());
    assert(apply_trace(s0, Seq::<Op>::empty()) == s0);
    assert(t1.last() == Op::Spawn);
    assert(t.last() == Op::Release);
    assert(apply_trace(s0, t1) == step(s0, Op::Spawn));
    assert(apply_trace(s0, t) == step(step(s0, Op::Spawn), Op::Release));
}

} // verus!
