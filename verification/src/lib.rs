//! Lifecycle supervision for one local backend service process.
//!
//! The supervisor owns the decisions of the startup sequence: ensure a
//! companion daemon is running, check whether the service is already healthy,
//! spawn it if not, poll until it is ready or attempts are exhausted, and
//! terminate the owned process when the window is destroyed. All I/O (the
//! HTTP probe, process spawning and signalling, sleeping) is performed by a
//! thin driver outside this crate, which feeds the observed outcomes back in
//! as plain values.

pub mod command;
pub mod health;
pub mod poll;
pub mod slot;
pub mod supervisor;
