//! Watches a stream of operating-system log lines for one class of
//! state-change records, maps each matching line to a binary state, and
//! decides which configured action to launch on each transition. The daemon
//! around it is manageable as a supervised system service.
//!
//! The crate holds the decision logic: line classification, configuration
//! merging, transition dispatch, and the service-lifecycle operations with
//! their state machine. Process spawning, file I/O and the asynchronous read
//! loop live with the caller.

pub mod classify;
pub mod config;
pub mod dispatch;
pub mod lifecycle;
mod supervisor;
