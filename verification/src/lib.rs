//! Live network-traffic capture and analysis library.
//!
//! The capture-classify-dispatch pipeline, the per-protocol listener
//! framework with its TCP session tracker, and the task-orchestration
//! state machine, with machine-checked contracts.

pub mod appstate;
pub mod chan;
pub mod cli;
pub mod config;
pub mod devices;
pub mod frame;
pub mod http;
pub mod packet_listeners;
pub mod runtime;
pub mod state;
