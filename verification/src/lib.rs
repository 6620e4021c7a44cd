//! Construction engine for transparent proxy dynamic libraries.
//!
//! A proxy (shim) library exposes the same exported entry points as a target
//! library, forwards every call it does not modify to the real implementation,
//! and lets a few exports be intercepted by user hooks that can still reach
//! the original. This crate verifies the engine that builds such a shim:
//!
//! - [`pe`] reads a mapped library image's export table ([`bytes`] holds
//!   its primitives),
//! - [`export`] derives each export's slot identifier,
//! - [`slots`] keeps one address slot per export,
//! - [`trampoline`] emits the frameless indirect jump for a passthrough export,
//! - [`config`] and [`hooks`] validate the user's declarations,
//! - [`plan`] assigns every export its forwarding mechanism,
//! - [`orchestrator`] sequences load and unload so that no slot is read
//!   before resolution completes; [`loader`] holds the verifiable part of
//!   library resolution.
//!
//! Turning a plan into source or object code, loading the real library, and
//! the process attach/detach plumbing are input/output work left to the
//! surrounding, unverified program.
pub mod bytes;
pub mod config;
pub mod export;
pub mod hooks;
pub mod loader;
pub mod orchestrator;
pub mod pe;
pub mod plan;
pub mod slots;
pub mod trampoline;
