//! Event multiplexing and surface-state reconciliation for a UI toolkit that
//! runs as a client of a wayland compositor.
//!
//! The protocol connection itself lives outside this crate: callers perform
//! the blocking dispatch and the protocol requests, and hand the library the
//! plain values that came back. Everything that decides what happens with
//! those values is here, with its contract.
pub mod application;
pub mod commands;
pub mod error;
pub mod event_loop;
pub mod native;
pub mod sctk_event;
pub mod settings;
