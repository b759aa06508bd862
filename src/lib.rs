//! A client for the local engine that drives a peripheral's auxiliary screen.
//!
//! `types` models what can be drawn, `codec` maps it to and from the engine's
//! shape-based JSON wire format (`wire`, `keys`), `messages` builds the request
//! bodies, `api` holds the session lifecycle and decides every request, and
//! `heartbeat` is the keep-alive task's state machine. Posting requests and
//! waiting are left to the caller.
use vstd::prelude::*;

pub mod api;
pub mod codec;
pub mod heartbeat;
pub mod icon;
pub mod keys;
pub mod messages;
pub mod types;
pub mod wire;

verus! {

} // verus!
