//! Capability-virtualization layer for a sandboxed guest-code runtime.
//!
//! Guest programs obtain every host resource (terminals, networking, HTTP,
//! execution contexts, concurrent task scheduling) through a single runtime
//! capability interface.  Each capability comes from an independently
//! swappable provider; absence of a capability is an explicit, legitimate
//! state, never a crash.

pub mod engine;
pub mod net;
pub mod runtime;
pub mod task;
pub mod tty;
pub mod unpack;
