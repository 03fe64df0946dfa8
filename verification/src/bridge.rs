//! The execution bridge: each operation in a blocking mode, which runs
//! the engine on the caller's own thread, and a non-blocking mode, which
//! validates eagerly, captures the validated inputs by value in a pending
//! handle, and settles that handle when the work is run.
//!
//! Both modes of an operation share one validator and one engine adapter,
//! and their contracts are phrased over the same spec functions
//! (`spec_validate_cost`, `good_hash_for`, `spec_compare`): the two modes
//! reject exactly the same inputs, with the same errors, and promise the
//! same of their results. A pending handle is settled by consuming it, so
//! a scheduled task settles exactly once, and validation errors are
//! surfaced before a handle exists — never through it.

use vstd::prelude::*;

use crate::cost::CostArg;
use crate::cost::spec_validate_cost;
use crate::cost::validate_cost;
use crate::engine::ENGINE_MAX_COST;
use crate::engine::ENGINE_MIN_COST;
use crate::engine::bcrypt_matches;
use crate::engine::engine_hash;
use crate::engine::engine_verify;
use crate::engine::good_hash_for;
use crate::engine::wellformed_hash;
use crate::errors::HashError;

verus! {

/// What verifying password `p` against string `h` yields: the engine's
/// match verdict when `h` is a structurally valid hash, and a malformed
/// hash error — never a plain `false` — when it is not.
pub open spec fn spec_compare(p: Seq<char>, h: Seq<char>) -> Result<bool, HashError> {
    if wellformed_hash(h) {
        Ok(bcrypt_matches(p, h))
    } else {
        Err(HashError::MalformedHash)
    }
}

/// Hash a password in blocking mode: validate the cost argument, run the
/// engine at the validated cost, and return its hash or the failure.
pub fn hash_sync(password: &str, cost: CostArg) -> (r: Result<String, HashError>)
    ensures
        spec_validate_cost(cost) matches Err(e) ==> r == Err::<String, HashError>(e),
        spec_validate_cost(cost) is Ok && r is Err ==> r == Err::<String, HashError>(
            HashError::EngineFailure,
        ),
        r matches Ok(h) ==> spec_validate_cost(cost) is Ok && good_hash_for(password@, h@)
            && h@.len() == 60,
        spec_validate_cost(cost) matches Ok(c) && c > ENGINE_MAX_COST ==> r == Err::<
            String,
            HashError,
        >(HashError::EngineFailure),
{
    let c = match validate_cost(cost) {
        Ok(c) => c,
        Err(e) => {
            return Err(e);
        },
    };
    match engine_hash(password, c) {
        Ok(h) => Ok(h),
        Err(_) => Err(HashError::EngineFailure),
    }
}

/// A hashing task that has been validated and scheduled but not yet run:
/// the validated inputs, captured by value. It settles exactly once,
/// because settling consumes it, and it cannot be cancelled: whoever runs
/// it obtains the settlement.
#[derive(Debug)]
pub struct PendingHash {
    /// The password the task will hash.
    pub password: String,
    /// The validated cost the engine will be run at.
    pub cost: u32,
}

/// Begin hashing in non-blocking mode: validate the cost argument eagerly
/// and either fail at once — an argument error is never deferred into the
/// settlement — or capture the inputs by value in a pending handle for a
/// background worker to settle.
pub fn hash_async(password: &str, cost: CostArg) -> (r: Result<PendingHash, HashError>)
    ensures
        r is Ok <==> spec_validate_cost(cost) is Ok,
        r matches Err(e) ==> spec_validate_cost(cost) == Err::<u32, HashError>(e),
        r matches Ok(t) ==> t.password@ == password@ && spec_validate_cost(cost) == Ok::<
            u32,
            HashError,
        >(t.cost),
{
    let c = match validate_cost(cost) {
        Ok(c) => c,
        Err(e) => {
            return Err(e);
        },
    };
    Ok(PendingHash { password: String::from_str(password), cost: c })
}

impl PendingHash {
    /// Run the captured hashing task and settle with its outcome: the
    /// engine's hash of the captured password at the captured cost, or an
    /// engine failure. Consumes the handle, so the task settles exactly
    /// once.
    pub fn settle(self) -> (r: Result<String, HashError>)
        ensures
            r matches Ok(h) ==> good_hash_for(self.password@, h@) && h@.len() == 60,
            r matches Err(e) ==> e == HashError::EngineFailure,
            self.cost < ENGINE_MIN_COST || self.cost > ENGINE_MAX_COST ==> r is Err,
    {
        match engine_hash(self.password.as_str(), self.cost) {
            Ok(h) => Ok(h),
            Err(_) => Err(HashError::EngineFailure),
        }
    }
}

/// Verify a password against a hash in blocking mode: the engine's match
/// verdict, or a malformed hash error when the string is not a
/// structurally valid hash. A non-match is the normal `false` result,
/// never an error.
pub fn compare_sync(password: &str, hash: &str) -> (r: Result<bool, HashError>)
    ensures
        r == spec_compare(password@, hash@),
{
    match engine_verify(password, hash) {
        Ok(b) => Ok(b),
        Err(_) => Err(HashError::MalformedHash),
    }
}

/// A verification task that has been scheduled but not yet run: the
/// inputs, captured by value. It settles exactly once, because settling
/// consumes it. Verification takes no cost argument, so there is nothing
/// to validate eagerly and scheduling cannot fail.
#[derive(Debug)]
pub struct PendingCompare {
    /// The password the task will verify.
    pub password: String,
    /// The hash string it will be verified against.
    pub hash: String,
}

/// Begin verification in non-blocking mode: capture the inputs by value
/// in a pending handle for a background worker to settle.
pub fn compare_async(password: &str, hash: &str) -> (r: PendingCompare)
    ensures
        r.password@ == password@,
        r.hash@ == hash@,
{
    PendingCompare { password: String::from_str(password), hash: String::from_str(hash) }
}

impl PendingCompare {
    /// Run the captured verification task and settle with its outcome,
    /// which is exactly what the blocking mode returns on the captured
    /// inputs. Consumes the handle, so the task settles exactly once.
    pub fn settle(self) -> (r: Result<bool, HashError>)
        ensures
            r == spec_compare(self.password@, self.hash@),
    {
        match engine_verify(self.password.as_str(), self.hash.as_str()) {
            Ok(b) => Ok(b),
            Err(_) => Err(HashError::MalformedHash),
        }
    }
}

/// A hash the engine freshly produced for a password verifies true
/// against that password: hashing then verifying, with any mix of modes,
/// yields `true` for every cost the validator accepts.
pub proof fn lemma_fresh_hash_verifies(p: Seq<char>, h: Seq<char>)
    ensures
        good_hash_for(p, h) ==> spec_compare(p, h) == Ok::<bool, HashError>(true),
{
}

/// A string that is not a structurally valid hash makes verification fail
/// with a malformed hash error — and only such a string does: a
/// wellformed hash never raises it, however wrong the password.
pub proof fn lemma_malformed_is_an_error(p: Seq<char>, h: Seq<char>)
    ensures
        !wellformed_hash(h) <==> spec_compare(p, h) == Err::<bool, HashError>(
            HashError::MalformedHash,
        ),
{
}

/// The blocking and non-blocking modes agree. Their contracts are phrased
/// over one shared validator and one shared engine adapter, so the two
/// modes reject exactly the same arguments with the same error; this
/// lemma records in addition that every eagerly surfaced rejection is an
/// argument error — never an engine or hash-format failure, which travel
/// through the result channel — and that a hash obtained from either mode
/// verifies true against its password in either mode.
pub proof fn lemma_modes_agree(arg: CostArg, p: Seq<char>, h: Seq<char>)
    ensures
        spec_validate_cost(arg) matches Err(e) ==> e == HashError::ArgumentTypeError || e
            == HashError::CostOutOfRange,
        good_hash_for(p, h) ==> spec_compare(p, h) == Ok::<bool, HashError>(true),
{
}

} // verus!
