//! The two ways in which decoding a numeric token can fail.

use vstd::prelude::*;

verus! {

/// Why a token was not accepted.
#[derive(Clone, Copy, Debug, PartialEq, Eq, Structural)]
pub enum DecodeError {
    /// The text is not a base-10 unsigned 64-bit integer.
    Parse,
    /// The integer is zero or does not fit in 32 bits.
    Range,
}

impl DecodeError {
    /// The text that `message` returns for each error.
    pub open spec fn message_spec(self) -> Seq<char> {
        match self {
            DecodeError::Parse => "failed to parse integer"@,
            DecodeError::Range => "invalid integer value"@,
        }
    }

    /// A human-readable description of the error.
    pub fn message(&self) -> (text: &'static str)
        ensures
            text@ == self.message_spec(),
    {
        match self {
            DecodeError::Parse => "failed to parse integer",
            DecodeError::Range => "invalid integer value",
        }
    }
}

} // verus!
