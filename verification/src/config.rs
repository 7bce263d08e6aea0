//! Timing configuration for the replication groups hosted on one node.

use vstd::prelude::*;

verus! {

/// Replication-group timing configuration in one physical node, carried by
/// the runtime whose workers are coordinated through [`crate::group`].
/// `tick_interval` is in milliseconds.
#[derive(Clone, Copy, Debug)]
pub struct MultiRaftConfig {
    pub election_tick: usize,
    pub heartbeat_tick: usize,
    pub tick_interval: u64,
}

} // verus!
