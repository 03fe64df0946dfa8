//! Password hashing and verification with a cost-validated bcrypt core.
//!
//! The library validates an optional cost argument, runs the bcrypt engine
//! on validated inputs, and offers every operation in two modes: a blocking
//! call that returns the result directly, and a non-blocking call that
//! validates eagerly, captures its inputs by value in a pending handle, and
//! settles that handle exactly once when the work is run.

use vstd::prelude::*;

pub mod bridge;
pub mod cost;
pub mod engine;
pub mod errors;

verus! {

/// Smallest cost a caller may ask for.
pub const MIN_COST: u32 = 4;

/// Largest cost a caller may ask for.
pub const MAX_COST: u32 = 32;

/// Cost used when the caller supplies none.
pub const DEFAULT_COST: u32 = 10;

} // verus!
