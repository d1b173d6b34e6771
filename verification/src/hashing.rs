//! Password hashing and verification, built on bcrypt.
//!
//! The digest that bcrypt produces embeds a random salt, so nothing can be
//! said about its text; the contracts instead speak through two names:
//! [`bcrypt_matches`], the deterministic matching relation that `bcrypt::verify`
//! computes, and [`bcrypt_digest_wf`], the digests on which it succeeds.

use vstd::prelude::*;

use crate::errors::HashingError;
use crate::errors::VerificationError;

verus! {

/// Whether `bcrypt::verify` reports that `password` matches `digest`: the
/// digest's embedded salt and cost are applied to the password and the result
/// is compared with the digest's hash part. A function of the two arguments
/// alone.
pub uninterp spec fn bcrypt_matches(password: Seq<char>, digest: Seq<char>) -> bool;

/// Whether `digest` is a well-formed bcrypt hash: `bcrypt::verify` succeeds on
/// exactly these digests, whatever the password. A function of the digest
/// alone.
pub uninterp spec fn bcrypt_digest_wf(digest: Seq<char>) -> bool;

/// `digest` was produced by hashing `password`: it is well formed and the
/// password matches it.
pub open spec fn digest_of(password: Seq<char>, digest: Seq<char>) -> bool {
    bcrypt_digest_wf(digest) && bcrypt_matches(password, digest)
}

/// What [`verify_password`] returns for a password and a stored digest.
pub open spec fn verify_spec(password: Seq<char>, digest: Seq<char>) -> Result<
    bool,
    VerificationError,
> {
    if bcrypt_digest_wf(digest) {
        Ok(bcrypt_matches(password, digest))
    } else {
        Err(VerificationError)
    }
}

/// The cost factor handed to bcrypt: work per call grows exponentially with
/// it, trading throughput against brute-force resistance of leaked digests.
pub const HASH_COST: u32 = 4;

#[verifier::external_type_specification]
#[verifier::external_body]
pub struct ExBcryptError(bcrypt::BcryptError);

/// Relies on `bcrypt::hash`: on success it returns a well-formed digest that
/// `bcrypt::verify` reports as matching the hashed password (the digest is
/// recomputed from the password with the salt and cost embedded in it). The
/// salt is drawn from OS randomness, so no more is said of the digest's text.
#[verifier::external_body]
fn bcrypt_hash(password: &str, cost: u32) -> (r: Result<String, bcrypt::BcryptError>)
    ensures
        r matches Ok(d) ==> digest_of(password@, d@),
{
    bcrypt::hash(password, cost)
}

/// Relies on `bcrypt::verify`: it fails exactly on digests it cannot parse as
/// a bcrypt hash (or whose embedded cost is out of range) — a condition on the
/// digest alone — and otherwise reports whether the password matches the
/// digest, a deterministic function of the two.
#[verifier::external_body]
fn bcrypt_verify(password: &str, digest: &str) -> (r: Result<bool, bcrypt::BcryptError>)
    ensures
        r is Ok <==> bcrypt_digest_wf(digest@),
        r matches Ok(b) ==> b == bcrypt_matches(password@, digest@),
{
    bcrypt::verify(password, digest)
}

/// Hash a password with the given cost factor.
///
/// On success the digest is well formed and matches the password. Whether the
/// call succeeds is not promised: the primitive may refuse the cost factor or
/// fail to draw a salt, and that failure is surfaced as [`HashingError`].
pub fn hash_password_with_cost(password: &str, cost: u32) -> (r: Result<String, HashingError>)
    ensures
        r matches Ok(d) ==> digest_of(password@, d@),
{
    match bcrypt_hash(password, cost) {
        Ok(d) => Ok(d),
        Err(_) => Err(HashingError),
    }
}

/// Hash a password with the service's fixed cost factor [`HASH_COST`].
pub fn hash_password(password: &str) -> (r: Result<String, HashingError>)
    ensures
        r matches Ok(d) ==> digest_of(password@, d@),
{
    hash_password_with_cost(password, HASH_COST)
}

/// Check a password against a stored digest.
///
/// Returns `Ok` exactly when the digest is well formed, and then reports
/// whether the password matches it; a malformed digest is surfaced as
/// [`VerificationError`] rather than as `false`.
pub fn verify_password(password: &str, digest: &str) -> (r: Result<bool, VerificationError>)
    ensures
        r == verify_spec(password@, digest@),
{
    match bcrypt_verify(password, digest) {
        Ok(b) => Ok(b),
        Err(_) => Err(VerificationError),
    }
}

/// Hashing a password and then verifying that same password against the
/// returned digest succeeds: verification returns `Ok(true)`.
pub proof fn lemma_hash_then_verify(password: Seq<char>, digest: Seq<char>)
    requires
        digest_of(password, digest),
    ensures
        verify_spec(password, digest) == Ok::<bool, VerificationError>(true),
{
}

} // verus!
