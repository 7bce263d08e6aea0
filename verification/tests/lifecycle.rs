use task_group::config::MultiRaftConfig;
use task_group::group::TaskGroup;

#[test]
fn fresh_group_barrier_pending() {
    let mut g = TaskGroup::new();
    let j = g.joinner();
    assert!(!j.poll(&mut g, true));
}

#[test]
fn default_group_barrier_pending() {
    let mut g = TaskGroup::default();
    let j = g.joinner();
    assert!(!j.poll(&mut g, true));
}

#[test]
fn zero_task_barrier() {
    let mut g = TaskGroup::new();
    let j = g.joinner();
    assert!(!j.poll(&mut g, true));
    let guard = g.spawn();
    assert!(!j.poll(&mut g, true));
    let woke = guard.release(&mut g);
    assert!(woke);
    assert!(j.poll(&mut g, true));
}

#[test]
fn release_without_waiter_wakes_nobody() {
    let mut g = TaskGroup::new();
    let guard = g.spawn();
    let woke = guard.release(&mut g);
    assert!(!woke);
    let j = g.joinner();
    assert!(j.poll(&mut g, true));
}

#[test]
fn stop_resolves_subscribed_signal() {
    let mut g = TaskGroup::new();
    let guard = g.spawn();
    let s = g.stopper();
    assert!(s.poll(&g).is_none());
    assert!(!s.is_terminated(&g));
    g.stop();
    assert!(s.poll(&g).is_some());
    // a signal resolved by broadcast is terminated even though the group
    // has not drained: stop() alone neither drains it nor releases the task
    assert!(s.is_terminated(&g));
    assert!(!s.stopped(&g));
    let j = g.joinner();
    assert!(!j.poll(&mut g, true));
    guard.release(&mut g);
    assert!(j.poll(&mut g, true));
}

#[test]
fn stop_is_idempotent() {
    let mut g = TaskGroup::new();
    let _guard = g.spawn();
    let s = g.stopper();
    g.stop();
    g.stop();
    g.stop();
    assert!(s.poll(&g).is_some());
    assert!(s.poll(&g).is_some());
    assert!(s.is_terminated(&g));
    assert!(!s.stopped(&g));
}

#[test]
fn resolved_barrier_stays_resolved() {
    let mut g = TaskGroup::new();
    let guard = g.spawn();
    guard.release(&mut g);
    let j = g.joinner();
    assert!(j.poll(&mut g, true));
    assert!(j.poll(&mut g, true));
    assert!(j.poll(&mut g, false));
}

#[test]
fn signal_after_drain_resolves_immediately() {
    let mut g = TaskGroup::new();
    let guard = g.spawn();
    guard.release(&mut g);
    let s = g.stopper();
    assert!(s.stopped(&g));
    assert!(s.is_terminated(&g));
    assert!(s.poll(&g).is_some());
    assert!(s.poll(&g).is_some());
}

#[test]
fn late_signal_misses_broadcast() {
    let mut g = TaskGroup::new();
    let guard = g.spawn();
    g.stop();
    // a subscription created after the broadcast observes nothing until the
    // group drains: the broadcast has no memory
    let s = g.stopper();
    assert!(s.poll(&g).is_none());
    guard.release(&mut g);
    assert!(s.poll(&g).is_some());
}

#[test]
fn barrier_fails_open_when_waker_cannot_register() {
    let mut g = TaskGroup::new();
    let _guard = g.spawn();
    let j = g.joinner();
    assert!(j.poll(&mut g, false));
}

#[test]
fn stop_without_subscribers_is_harmless() {
    let mut g = TaskGroup::new();
    g.stop();
    let j = g.joinner();
    assert!(!j.poll(&mut g, true));
    let guard = g.spawn();
    g.stop();
    guard.release(&mut g);
    assert!(j.poll(&mut g, true));
}

#[test]
fn observers_report_group_state() {
    let mut g = TaskGroup::new();
    assert_eq!(g.live_tasks(), 0);
    assert!(!g.is_drained());
    assert_eq!(g.subscription_count(), 0);
    let guard = g.spawn();
    assert_eq!(g.live_tasks(), 1);
    let s = g.stopper();
    assert_eq!(s.subscription(), Some(0));
    assert_eq!(g.subscription_count(), 1);
    guard.release(&mut g);
    assert_eq!(g.live_tasks(), 0);
    assert!(g.is_drained());
    // a signal created after the drain holds no subscription
    let late = g.stopper();
    assert_eq!(late.subscription(), None);
    assert_eq!(g.subscription_count(), 1);
}

#[test]
fn stopped_message() {
    let mut g = TaskGroup::new();
    let guard = g.spawn();
    guard.release(&mut g);
    let s = g.stopper();
    let stopped = s.poll(&g).unwrap();
    assert_eq!(stopped.message(), "The task was stopped");
}

#[test]
fn config_fields() {
    let c = MultiRaftConfig { election_tick: 10, heartbeat_tick: 3, tick_interval: 100 };
    let d = c;
    assert_eq!(d.election_tick, 10);
    assert_eq!(d.heartbeat_tick, 3);
    assert_eq!(d.tick_interval, 100);
}
