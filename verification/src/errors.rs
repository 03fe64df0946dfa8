//! The failures a hashing or verification call can end in.

use vstd::prelude::*;

verus! {

/// Why a call failed.
///
/// A verification that simply finds the password and the hash in
/// disagreement is not a failure: it is a normal `false` result. The
/// variants here are reserved for calls that could not produce a result
/// at all.
#[derive(Clone, Copy, Debug, PartialEq, Eq, Structural)]
pub enum HashError {
    /// A required argument was missing or not of the expected type
    /// (a cost that is not numeric).
    ArgumentTypeError,
    /// A numeric cost was supplied but lies outside the valid closed
    /// interval from `MIN_COST` to `MAX_COST`.
    CostOutOfRange,
    /// Verification was asked about a string that is not a structurally
    /// valid encoded hash.
    MalformedHash,
    /// The underlying engine failed for a reason unrelated to the
    /// validity of the inputs.
    EngineFailure,
}

/// The fixed, user-facing text of each failure.
pub open spec fn spec_message(e: HashError) -> Seq<char> {
    match e {
        HashError::ArgumentTypeError => "cost must be a number"@,
        HashError::CostOutOfRange => "hash cost out of range [4,32]"@,
        HashError::MalformedHash => "malformed bcrypt hash"@,
        HashError::EngineFailure => "bcrypt engine failure"@,
    }
}

impl HashError {
    /// The fixed, user-facing message of this failure; the one for
    /// `CostOutOfRange` names the valid closed interval.
    pub fn message(&self) -> (m: &'static str)
        ensures
            m@ == spec_message(*self),
    {
        match self {
            HashError::ArgumentTypeError => "cost must be a number",
            HashError::CostOutOfRange => "hash cost out of range [4,32]",
            HashError::MalformedHash => "malformed bcrypt hash",
            HashError::EngineFailure => "bcrypt engine failure",
        }
    }
}

} // verus!
