//! Administrative and record-keeping core of an on-chain merchant invoicing
//! platform.
//!
//! The platform runs inside a hosting execution environment that owns the
//! persistent key/value store, verifies that a caller cryptographically
//! authorized a call, supplies the current ledger timestamp, appends emitted
//! events to its log, and commits or rolls back every write of a call as one
//! atomic transaction.  This crate is the decision core of the contract: it
//! holds the full persisted state as plain values, and every entry point is a
//! function from the current state, the authorized caller and the call-time
//! timestamp to the next state and a result.  The host adapter performs the
//! storage reads and writes, the authorization checks and the event delivery
//! around these functions.
//!
//! Every mutating operation composes its guards in a fixed order — pause
//! check, reentrancy guard, authorization, business invariant — and either
//! commits all of its writes or leaves the state exactly as it found it.

pub mod account;
pub mod components;
pub mod errors;
pub mod events;
pub mod laws;
pub mod model;
pub mod shade;
pub mod types;
