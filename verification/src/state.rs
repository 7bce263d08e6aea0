//! The mathematical model of one task group: its abstract state and the
//! transition function that every operation of the crate is specified by.

use vstd::prelude::*;

verus! {

/// Abstract state of one task group.
///
/// Every contract of [`crate::group`] is stated over this view, and every
/// state change is one [`step`] of the transition function below.
#[verifier::ext_equal]
pub ghost struct GroupView {
    /// Number of registered tasks that have not yet released their guard.
    pub live: nat,
    /// One-way drained latch: flipped, exactly once, by the guard release
    /// that observes itself to be the last one outstanding. Never reverts.
    pub drained: bool,
    /// The shutdown subscriptions, in order of creation; an entry is `true`
    /// once a stop broadcast has fired that subscription.
    pub subs: Seq<bool>,
    /// Whether a drain waiter's waker is currently registered.
    pub waker: bool,
}

impl GroupView {
    /// The state of a freshly created group: no live task, not drained,
    /// no subscription, no registered waker.
    pub open spec fn initial() -> GroupView {
        GroupView { live: 0, drained: false, subs: Seq::empty(), waker: false }
    }
}

/// The operations that change a group's logical state.
pub ghost enum Op {
    /// A task is registered and its guard handed out: the live count rises.
    Spawn,
    /// A task's guard is released: the live count falls, the pending waker
    /// (if any) is consumed, and the release that sees the pre-release count
    /// equal to one flips the drained latch.
    Release,
    /// A stop broadcast: fires every subscription that exists at this moment.
    /// A group that is already drained ignores it.
    Stop,
    /// A new shutdown subscription is created. A group that is already
    /// drained hands out no subscription, so its state does not change.
    Subscribe,
}

/// When an operation may be applied: a release needs a live task to release,
/// and a registration needs room in the counter.
pub open spec fn op_enabled(s: GroupView, op: Op) -> bool {
    match op {
        Op::Spawn => s.live < u32::MAX,
        Op::Release => s.live >= 1,
        Op::Stop => true,
        Op::Subscribe => true,
    }
}

/// The one-step transition function of a group.
pub open spec fn step(s: GroupView, op: Op) -> GroupView {
    match op {
        Op::Spawn => (GroupView { live: (s.live + 1) as nat, ..s }),
        Op::Release => (GroupView {
            live: (s.live - 1) as nat,
            drained: s.drained || s.live == 1,
            waker: false,
            ..s
        }),
        Op::Stop => if s.drained {
            s
        } else {
            (GroupView { subs: Seq::new(s.subs.len(), |i: int| true), ..s })
        },
        Op::Subscribe => if s.drained {
            s
        } else {
            (GroupView { subs: s.subs.push(false), ..s })
        },
    }
}

} // verus!
