//! The hash engine adapter: the bcrypt primitive behind trusted wrappers.
//!
//! The engine is trusted, not verified; everything stated of it here is
//! read off the bcrypt crate's source. Two uninterpreted names stand for
//! what `bcrypt::verify` computes: `wellformed_hash` for the strings it
//! accepts at all, and `bcrypt_matches` for the boolean it then returns.
//! Both are functions of their arguments alone — the engine's verification
//! path draws on no randomness, clock or environment.

use vstd::prelude::*;

verus! {

/// Smallest cost the bcrypt engine itself accepts.
pub const ENGINE_MIN_COST: u32 = 4;

/// Largest cost the bcrypt engine itself accepts. It is one below this
/// library's `MAX_COST`: a validated cost above it is handed to the
/// engine and the engine's refusal surfaces as an engine failure.
pub const ENGINE_MAX_COST: u32 = 31;

/// Whether the engine accepts `h` as a structurally valid encoded hash:
/// sixty ASCII characters in the bcrypt format, carrying a version tag it
/// knows and a cost it allows. A function of `h` alone.
pub uninterp spec fn wellformed_hash(h: Seq<char>) -> bool;

/// The boolean the engine returns when it verifies password `p` against a
/// wellformed hash `h`: whether the digest recomputed from `p` under the
/// cost and salt embedded in `h` equals the digest embedded in `h`. A
/// function of `p` and `h` alone.
pub uninterp spec fn bcrypt_matches(p: Seq<char>, h: Seq<char>) -> bool;

/// What the engine promises of a hash it freshly produced for `p`: the
/// string is structurally valid and verifies true against `p`.
pub open spec fn good_hash_for(p: Seq<char>, h: Seq<char>) -> bool {
    wellformed_hash(h) && bcrypt_matches(p, h)
}

/// The error type of the bcrypt engine, carried through opaquely and
/// mapped to this library's own errors by verified code.
#[verifier::external_type_specification]
#[verifier::external_body]
pub struct ExBcryptError(bcrypt::BcryptError);

/// Relies on `bcrypt::hash`: it formats the cost, a fresh random salt and
/// the digest of the password into a sixty-character string that
/// `bcrypt::verify` parses back and re-verifies against the same password
/// by recomputing the digest, so a produced hash is wellformed and
/// matches the password it was made from. It returns an error whenever
/// the cost lies outside the engine's own range, and otherwise only when
/// the operating system's randomness source fails. It never panics.
#[verifier::external_body]
pub(crate) fn engine_hash(password: &str, cost: u32) -> (r: Result<String, bcrypt::BcryptError>)
    ensures
        r matches Ok(h) ==> good_hash_for(password@, h@) && h@.len() == 60,
        cost < ENGINE_MIN_COST || cost > ENGINE_MAX_COST ==> r is Err,
{
    bcrypt::hash(password, cost)
}

/// Relies on `bcrypt::verify`: it returns an error exactly when the hash
/// string fails to parse as a bcrypt hash or embeds a cost the engine
/// does not allow — a condition on the hash string alone — and otherwise
/// returns deterministically whether the digest recomputed from the
/// password equals the one embedded in the hash. It never panics.
#[verifier::external_body]
pub(crate) fn engine_verify(password: &str, hash: &str) -> (r: Result<
    bool,
    bcrypt::BcryptError,
>)
    ensures
        r is Ok <==> wellformed_hash(hash@),
        r matches Ok(b) ==> b == bcrypt_matches(password@, hash@),
{
    bcrypt::verify(password, hash)
}

} // verus!
