//! A registry of trading pairs with owner/editor write access and an
//! append-only audit log, written as a verified state machine.
//!
//! The host supplies the caller's identity and the current time; every
//! operation is a plain function of the state, the caller, the time and the
//! request.

pub mod types;
pub mod registry;
pub mod laws;
