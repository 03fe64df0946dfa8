//! The cost validator: turns an optional, possibly ill-typed numeric
//! argument into a validated cost or a well-defined rejection.

use vstd::prelude::*;

use crate::DEFAULT_COST;
use crate::MAX_COST;
use crate::MIN_COST;
use crate::errors::HashError;

verus! {

/// The cost argument as it arrives from the caller's boundary.
///
/// A host boundary that carries numbers in a wider form (a float, say)
/// converts a fractional value by truncation toward zero before it builds
/// a `Numeric`; a value that is not a number at all becomes `NonNumeric`.
/// Validity is never inferred from a default: an absent argument is its
/// own variant and is resolved here, explicitly, to the default cost.
#[derive(Clone, Copy, Debug, PartialEq, Eq, Structural)]
pub enum CostArg {
    /// No cost was supplied.
    Absent,
    /// A cost was supplied but it was not numeric.
    NonNumeric,
    /// A numeric cost, already an integer.
    Numeric(i64),
}

/// What validating a cost argument yields: the default for an absent
/// argument, a type error for a non-numeric one, and a numeric value
/// exactly when it lies in the closed interval from `MIN_COST` to
/// `MAX_COST`.
pub open spec fn spec_validate_cost(arg: CostArg) -> Result<u32, HashError> {
    match arg {
        CostArg::Absent => Ok(DEFAULT_COST),
        CostArg::NonNumeric => Err(HashError::ArgumentTypeError),
        CostArg::Numeric(n) => {
            if MIN_COST as i64 <= n && n <= MAX_COST as i64 {
                Ok(n as u32)
            } else {
                Err(HashError::CostOutOfRange)
            }
        },
    }
}

/// Validate a cost argument.
///
/// Pure: the result is a function of the argument alone, with no side
/// effects, and both call modes of every operation share it.
pub fn validate_cost(arg: CostArg) -> (r: Result<u32, HashError>)
    ensures
        r == spec_validate_cost(arg),
{
    match arg {
        CostArg::Absent => Ok(DEFAULT_COST),
        CostArg::NonNumeric => Err(HashError::ArgumentTypeError),
        CostArg::Numeric(n) => {
            if MIN_COST as i64 <= n && n <= MAX_COST as i64 {
                Ok(n as u32)
            } else {
                Err(HashError::CostOutOfRange)
            }
        },
    }
}

/// A numeric cost is rejected as out of range exactly when it lies
/// outside the closed interval from `MIN_COST` to `MAX_COST`; both
/// boundary values themselves are accepted.
pub proof fn lemma_out_of_range_rejected(n: i64)
    ensures
        (n < MIN_COST as i64 || n > MAX_COST as i64) <==> spec_validate_cost(CostArg::Numeric(n))
            == Err::<u32, HashError>(HashError::CostOutOfRange),
        MIN_COST as i64 <= n <= MAX_COST as i64 ==> spec_validate_cost(CostArg::Numeric(n))
            == Ok::<u32, HashError>(n as u32),
{
}

/// An absent cost argument behaves exactly as if the default cost had
/// been supplied.
pub proof fn lemma_absent_is_default()
    ensures
        spec_validate_cost(CostArg::Absent) == spec_validate_cost(
            CostArg::Numeric(DEFAULT_COST as i64),
        ),
        spec_validate_cost(CostArg::Absent) == Ok::<u32, HashError>(DEFAULT_COST),
{
}

} // verus!
