//! Signed, replay-resistant envelopes around application payloads, with a
//! canonical byte encoding that makes the signatures reproducible.

pub mod canonical;
pub mod identity;
pub mod error;
pub mod permission;
pub mod roster;
pub mod payload;
pub mod envelope;
