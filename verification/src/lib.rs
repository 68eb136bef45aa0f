//! Bidirectional directory mirroring, reduced to its decision core.
//!
//! Two directory trees are kept mirrored by reacting to filesystem change
//! notifications. This crate holds the verified logic of that reactor: which
//! events are significant, how the single mutual-exclusion guard serializes
//! the two sync directions, how an external sync invocation's result is
//! classified, and how the "present only in the source" report is computed
//! and written. The unverified shell around it (watcher subscriptions,
//! process invocation, file I/O) hands plain values in and out.

pub mod events;

pub mod config;

pub mod executor;

pub mod reactor;

pub mod diff;
