//! A shutdown-broadcast and quiescence-barrier primitive for dynamically
//! spawned concurrent work.
//!
//! A [`group::TaskGroup`] tracks how many registered tasks are still live,
//! broadcasts "begin shutting down" to every subscribed [`group::Stopper`],
//! and lets a [`group::Joinner`] waiter learn exactly when the live-task
//! count has reached zero. The logical state of a group and its transition
//! function live in [`state`]; the laws that hold of every sequence of
//! operations are proved in [`laws`].

pub mod config;
pub mod group;
pub mod laws;
pub mod state;
