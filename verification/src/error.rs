//! Failure kinds of the proof lifecycle.

use vstd::prelude::*;

verus! {

/// A fatal condition. A proof that fails its cryptographic check is not among
/// them: that is an ordinary negative answer.
#[derive(Clone, Copy, Debug, PartialEq, Eq, Structural)]
pub enum Error {
    /// Envelope bytes are truncated, corrupt or inconsistent in length.
    MalformedParameters,
    /// A 32-byte chunk is not the canonical encoding of a scalar.
    InvalidFieldElement,
    /// The circuit and the commitment parameters do not fit together.
    KeygenFailure,
    /// The declared public outputs disagree with a full trace evaluation.
    CircuitInconsistency,
    /// The proving algorithm failed, or produced a proof that does not verify.
    ProvingFailure,
}

impl Error {
    /// The text that describes each kind.
    pub open spec fn message_text(self) -> Seq<char> {
        match self {
            Error::MalformedParameters => "malformed parameters"@,
            Error::InvalidFieldElement => "invalid field element"@,
            Error::KeygenFailure => "key generation failed"@,
            Error::CircuitInconsistency => "circuit is inconsistent"@,
            Error::ProvingFailure => "proving failed"@,
        }
    }

    /// A short description for the user.
    pub fn message(&self) -> (s: &'static str)
        ensures
            s@ == self.message_text(),
    {
        match self {
            Error::MalformedParameters => "malformed parameters",
            Error::InvalidFieldElement => "invalid field element",
            Error::KeygenFailure => "key generation failed",
            Error::CircuitInconsistency => "circuit is inconsistent",
            Error::ProvingFailure => "proving failed",
        }
    }
}

} // verus!
