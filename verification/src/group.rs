//! The task group and its handles: stop guards, shutdown signals and the
//! drain waiter. Every state change is specified as one step of the
//! transition function in [`crate::state`].

use vstd::prelude::*;

use crate::state::{GroupView, Op, step};

verus! {

/// Control-flow sentinel produced by a resolved shutdown signal.
///
/// Not a fault: it means "a stop was observed, abandon remaining work", and
/// is convenient to bubble up caller error chains.
#[derive(Debug)]
pub struct Stopped;

impl Stopped {
    /// A human-readable description of the sentinel.
    pub fn message(&self) -> (m: &'static str)
        ensures
            m@ == "The task was stopped"@,
    {
        "The task was stopped"
    }
}

/// One task group: the shared coordination state, together with the
/// operations its handles perform on it.
///
/// The group counts live tasks, keeps the one-way drained latch, owns the
/// registry of shutdown subscriptions, and holds the single waker slot of a
/// drain waiter. Its logical state is the [`GroupView`] it views to.
pub struct TaskGroup {
    num_tasks: u32,
    drained: bool,
    subs: Vec<bool>,
    waker_set: bool,
}

impl View for TaskGroup {
    type V = GroupView;

    closed spec fn view(&self) -> GroupView {
        GroupView {
            live: self.num_tasks as nat,
            drained: self.drained,
            subs: self.subs@,
            waker: self.waker_set,
        }
    }
}

/// Owns exactly one unit of a group's live-task count.
///
/// A guard is handed out by [`TaskGroup::spawn`] and consumed by
/// [`StopGuard::release`]; because release takes the guard by value, each
/// guard releases its unit at most once.
pub struct StopGuard {
    _private: (),
}

/// A per-task shutdown signal: it resolves once a stop broadcast has fired
/// its subscription, or once the group has fully drained.
///
/// A signal constructed on an already-drained group holds no subscription
/// and resolves immediately. The subscription is an owned token into the
/// group's registry, so the signal borrows nothing from the group.
pub struct Stopper {
    sub: Option<usize>,
}

/// A drain waiter: its poll resolves exactly when the group's live-task
/// count has reached zero. The waiter itself is stateless; it participates
/// only in the group's single waker slot.
pub struct Joinner {
    _private: (),
}

impl TaskGroup {
    /// Creates a fresh group: no live task, not drained, no subscription.
    pub fn new() -> (g: TaskGroup)
        ensures
            g@ == GroupView::initial(),
    {
        let g = TaskGroup { num_tasks: 0, drained: false, subs: Vec::new(), waker_set: false };
        g
    }

    /// Registers one task and hands out the guard that owns its unit of the
    /// live-task count.
    pub fn spawn(&mut self) -> (guard: StopGuard)
        requires
            old(self)@.live < u32::MAX,
        ensures
            final(self)@ == step(old(self)@, Op::Spawn),
    {
        self.num_tasks = self.num_tasks + 1;
        StopGuard { _private: () }
    }

    /// Broadcasts "begin shutting down": fires every subscription that
    /// exists now. Late subscribers are not remembered, the live-task count
    /// is untouched, and a group that has already drained ignores the call.
    pub fn stop(&mut self)
        ensures
            final(self)@ == step(old(self)@, Op::Stop),
    {
        if !self.drained {
            let ghost pre = self@;
            let n: usize = self.subs.len();
            let mut i: usize = 0;
            while i < n
                invariant
                    i <= n,
                    n == self.subs.len(),
                    self.num_tasks == pre.live,
                    self.drained == pre.drained,
                    self.waker_set == pre.waker,
                    self.subs@.len() == pre.subs.len(),
                    forall|j: int| 0 <= j < i ==> self.subs@[j],
                decreases n - i,
            {
                self.subs.set(i, true);
                i = i + 1;
            }
        }
    }

    /// Hands out a new shutdown signal. On a group that is not drained, the
    /// signal owns a fresh subscription; on a drained group it owns none and
    /// is already resolved.
    pub fn stopper(&mut self) -> (s: Stopper)
        ensures
            final(self)@ == step(old(self)@, Op::Subscribe),
            s@ == (if old(self)@.drained {
                Option::<usize>::None
            } else {
                Option::Some(old(self)@.subs.len() as usize)
            }),
    {
        if self.drained {
            Stopper { sub: None }
        } else {
            let idx: usize = self.subs.len();
            self.subs.push(false);
            Stopper { sub: Some(idx) }
        }
    }

    /// Hands out a drain waiter for this group.
    pub fn joinner(&self) -> (j: Joinner) {
        Joinner { _private: () }
    }

    /// The number of registered tasks that have not yet released their
    /// guard.
    pub fn live_tasks(&self) -> (n: u32)
        ensures
            n == self@.live,
    {
        self.num_tasks
    }

    /// Whether the drained latch has flipped.
    pub fn is_drained(&self) -> (d: bool)
        ensures
            d == self@.drained,
    {
        self.drained
    }

    /// The size of the subscription registry: every token below it is
    /// valid.
    pub fn subscription_count(&self) -> (n: usize)
        ensures
            n == self@.subs.len(),
    {
        self.subs.len()
    }
}

impl Default for TaskGroup {
    /// Same as [`TaskGroup::new`]: a fresh, empty group.
    fn default() -> (g: Self)
        ensures
            g@ == GroupView::initial(),
    {
        TaskGroup::new()
    }
}

impl StopGuard {
    /// Releases this guard's unit of the live-task count. The release that
    /// observes the pre-release count equal to one flips the drained latch;
    /// every release consumes the registered waker slot, and the returned
    /// flag tells the caller whether a waker was indeed pending (and must
    /// now be woken).
    ///
    /// Consuming `self` makes a double release unwritable; the caller pairs
    /// each guard with the group that handed it out.
    pub fn release(self, g: &mut TaskGroup) -> (woke: bool)
        requires
            old(g)@.live >= 1,
        ensures
            final(g)@ == step(old(g)@, Op::Release),
            woke == old(g)@.waker,
    {
        let prev: u32 = g.num_tasks;
        g.num_tasks = prev - 1;
        if prev == 1 {
            g.drained = true;
        }
        let woke = g.waker_set;
        g.waker_set = false;
        woke
    }
}

impl View for Stopper {
    type V = Option<usize>;

    /// The subscription this signal owns: an index into the group's
    /// registry, or nothing for a signal created after the drain.
    closed spec fn view(&self) -> Option<usize> {
        self.sub
    }
}

impl Stopper {
    /// Whether this signal's subscription (if any) refers into `g`'s
    /// registry. Holds from creation on, since the registry never shrinks.
    pub open spec fn valid_for(self, g: GroupView) -> bool {
        match self@ {
            Option::Some(i) => i < g.subs.len(),
            Option::None => true,
        }
    }

    /// Whether this signal is resolved in state `g`: the group has drained,
    /// or the signal never subscribed (it was created after the drain), or
    /// a stop broadcast has fired its subscription.
    pub open spec fn resolved(self, g: GroupView) -> bool {
        g.drained || match self@ {
            Option::None => true,
            Option::Some(i) => g.subs[i as int],
        }
    }

    /// `true` if the group has fully drained. (This reports the drain
    /// latch, not whether this particular signal has resolved.)
    pub fn stopped(&self, g: &TaskGroup) -> (r: bool)
        ensures
            r == g@.drained,
    {
        g.drained
    }

    /// One poll of the signal: `Some(Stopped)` exactly when the signal is
    /// resolved. Polling is read-only, so an already-resolved signal
    /// reports the same terminal outcome on every later poll.
    pub fn poll(&self, g: &TaskGroup) -> (r: Option<Stopped>)
        requires
            self.valid_for(g@),
        ensures
            r is Some == self.resolved(g@),
    {
        if g.drained {
            Some(Stopped)
        } else {
            match self.sub {
                None => Some(Stopped),
                Some(i) => {
                    if g.subs[i] {
                        Some(Stopped)
                    } else {
                        None
                    }
                },
            }
        }
    }

    /// A terminated-future test in the sense of a fused future: `true`
    /// exactly when this signal has resolved — the group has drained, the
    /// signal holds no subscription, or a broadcast has fired it.
    /// Resolution never reverts, so a terminated signal reports terminated
    /// on every later call.
    pub fn is_terminated(&self, g: &TaskGroup) -> (r: bool)
        requires
            self.valid_for(g@),
        ensures
            r == self.resolved(g@),
    {
        match self.poll(g) {
            Some(_) => true,
            None => false,
        }
    }

    /// The subscription token this signal owns, if any.
    pub fn subscription(&self) -> (t: Option<usize>)
        ensures
            t == self@,
    {
        self.sub
    }
}

impl Joinner {
    /// One poll of the drain waiter. `can_register` reports whether the
    /// caller is able to store its waker in the group's slot; when it
    /// cannot, the poll fails open — it reports ready rather than risking a
    /// waiter that nothing will ever wake.
    ///
    /// Ready exactly when the group has drained or registration failed;
    /// otherwise the waker slot is now occupied and the waiter is pending.
    pub fn poll(&self, g: &mut TaskGroup, can_register: bool) -> (ready: bool)
        ensures
            final(g)@.live == old(g)@.live,
            final(g)@.drained == old(g)@.drained,
            final(g)@.subs == old(g)@.subs,
            ready == (old(g)@.drained || !can_register),
            final(g)@.waker == (if old(g)@.drained || !can_register {
                old(g)@.waker
            } else {
                true
            }),
    {
        if g.drained {
            true
        } else if can_register {
            g.waker_set = true;
            false
        } else {
            true
        }
    }
}

} // verus!
