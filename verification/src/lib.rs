//! Supervision of a now-playing worker process and reconciliation of its
//! event stream into one coherent "what is playing, on which zone" state.
//!
//! The crate holds the decisions only: what a line of the worker's output
//! means, how a message changes the state, when the presentation has to be
//! refreshed, how long to wait before a restart and how a shutdown proceeds.
//! Processes, threads, clocks and the tray itself belong to the caller.

pub mod backoff;
pub mod json;
pub mod launch;
pub mod protocol;
pub mod reconcile;
pub mod restart;
pub mod shutdown;
pub mod supervisor;
pub mod text;
pub mod tray;
pub mod types;
