//! What can go wrong.

use vstd::prelude::*;

verus! {

/// The failures that the library reports to its callers.
#[derive(Debug, Clone, Copy, PartialEq, Eq, Structural)]
pub enum Error {
    /// The signee's timestamp is 90 seconds or more away from the clock.
    TimestampOutOfRange,
    /// The signature does not match the signee's canonical bytes.
    InvalidSignature,
    /// The public-key bytes do not decode to a point of the curve.
    InvalidIdentity,
    /// A member list that is not strictly increasing by user key.
    InvalidRoster,
    /// A payload tag that names no known kind of payload.
    UnknownPayloadTag,
    /// A stored key column whose length is not 32 bytes.
    InvalidBlobSize,
    /// The system clock reads a time before the Unix epoch.
    ClockBeforeEpoch,
}

} // verus!
