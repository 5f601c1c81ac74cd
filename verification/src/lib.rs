//! Organ-donation matching: donor/recipient records, an authority registry,
//! a compatibility-and-priority scoring engine, and the confirmation
//! state machine for proposed matches.
//!
//! The library is pure: callers hand in the current time, the caller
//! identity, and the candidate set, and receive the updated records and
//! notification payloads back. Durable storage, identity addressing and
//! signature checks belong to the surrounding layer.

pub mod engine;
pub mod lifecycle;
pub mod score;
pub mod types;
pub mod validate;
