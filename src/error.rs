use vstd::prelude::*;

verus! {

/// Errors of the handshake engine. Every one of them aborts only the attempt
/// that raised it.
#[derive(Debug, Clone, Copy, PartialEq, Eq, Structural)]
pub enum RosenpassError {
    /// A buffer handed to or from the codec or the mixing layer has the wrong length.
    BufferSizeMismatch,
    /// A message tag that the state machine does not know, or not at this point.
    InvalidMessageType(u8),
    /// The KEM refused a ciphertext, or a message's authentication tag does
    /// not open under the chain the receiver reached: a ciphertext (or any
    /// other field) was not what the sender used.
    DecapsulationFailure,
    /// A biscuit did not open under the biscuit key, or was redeemed before.
    BiscuitAuthenticationFailure,
    /// The session identifiers of a message match no tracked attempt.
    StaleOrUnknownSession,
    /// The attempt ran past its deadline.
    Timeout,
}

/// The failure of a fixed-layout buffer view: the buffer has the wrong length.
#[derive(Debug, Clone, Copy, PartialEq, Eq, Structural)]
pub enum LenseError {
    BufferSizeMismatch,
}

impl From<LenseError> for RosenpassError {
    fn from(value: LenseError) -> (r: Self) {
        match value {
            LenseError::BufferSizeMismatch => RosenpassError::BufferSizeMismatch,
        }
    }
}

impl vstd::std_specs::convert::FromSpecImpl<LenseError> for RosenpassError {
    open spec fn obeys_from_spec() -> bool {
        true
    }

    open spec fn from_spec(v: LenseError) -> RosenpassError {
        match v {
            LenseError::BufferSizeMismatch => RosenpassError::BufferSizeMismatch,
        }
    }
}

} // verus!
