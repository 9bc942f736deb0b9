//! One-way salted password hashing, done by the `bcrypt` crate.

use vstd::prelude::*;

verus! {

/// What `bcrypt::verify` returns for a plaintext and a digest: `Some(true)`
/// where the digest matches the plaintext, `Some(false)` where it does not,
/// `None` where `bcrypt::verify` fails because it cannot use the digest.
pub uninterp spec fn digest_check(plaintext: Seq<char>, digest: Seq<char>) -> Option<bool>;

/// `bcrypt::BcryptError`, the error of the two calls below. Nothing is read
/// from it: whatever it holds becomes a `HashingError`.
#[verifier::external_type_specification]
#[verifier::external_body]
pub struct ExBcryptError(bcrypt::BcryptError);

/// The hashing engine failed, or was handed a digest it cannot read.
#[derive(Debug, Clone, Copy, PartialEq, Eq)]
pub struct HashingError {}

/// How every digest of this service begins: the version of the scheme and
/// the work factor, twelve.
pub open spec fn digest_prefix() -> Seq<char> {
    seq!['$', '2', 'b', '$', '1', '2', '$']
}

/// Whether `digest` is a digest that hashing `plaintext` may produce: sixty
/// characters that begin with the prefix and check against the plaintext.
pub open spec fn hashes_to(plaintext: Seq<char>, digest: Seq<char>) -> bool {
    &&& digest.len() == 60
    &&& digest.subrange(0, 7) == digest_prefix()
    &&& digest_check(plaintext, digest) == Some(true)
}

/// The result of verifying `plaintext` against `digest`.
pub open spec fn verdict(plaintext: Seq<char>, digest: Seq<char>) -> Result<bool, HashingError> {
    match digest_check(plaintext, digest) {
        Some(matches) => Ok(matches),
        None => Err(HashingError {}),
    }
}

/// `bcrypt::hash` at `bcrypt::DEFAULT_COST`, which is twelve. The salt is
/// random, so nothing fixes which digest comes back, and drawing the salt can
/// fail. A digest that does come back is the sixty-character form `$2b$12$` +
/// salt + hash, and `bcrypt::verify` recomputes the same hash from the cost
/// and the salt it reads there.
#[verifier::external_body]
fn bcrypt_hash(plaintext: &str) -> (r: Result<String, bcrypt::BcryptError>)
    ensures
        r matches Ok(digest) ==> hashes_to(plaintext@, digest@),
{
    bcrypt::hash(plaintext, bcrypt::DEFAULT_COST)
}

/// `bcrypt::verify`. It reads cost and salt from the digest, hashes the
/// plaintext with them and compares; it fails on a digest that it cannot
/// parse or that names a cost out of range. The result depends on the two
/// arguments alone.
#[verifier::external_body]
fn bcrypt_verify(plaintext: &str, digest: &str) -> (r: Result<bool, bcrypt::BcryptError>)
    ensures
        match r {
            Ok(matches) => digest_check(plaintext@, digest@) == Some(matches),
            Err(_) => digest_check(plaintext@, digest@) is None,
        },
{
    bcrypt::verify(plaintext, digest)
}

/// Hashes `plaintext` with a fresh salt at the default work factor.
pub fn hash(plaintext: &str) -> (r: Result<String, HashingError>)
    ensures
        r matches Ok(digest) ==> hashes_to(plaintext@, digest@),
{
    // which digest comes back, and whether one does, is for the engine and
    // its random source to say
    let outcome = bcrypt_hash(plaintext);
    digest_from(outcome)
}

/// Tells whether `plaintext` matches `digest`; fails on a malformed digest.
pub fn verify(plaintext: &str, digest: &str) -> (r: Result<bool, HashingError>)
    ensures
        r == verdict(plaintext@, digest@),
{
    match bcrypt_verify(plaintext, digest) {
        Ok(matches) => Ok(matches),
        Err(_) => Err(HashingError {}),
    }
}

/// What `hash` makes of what the engine returned: the digest as it came, or
/// the one error of this module in place of whatever went wrong.
pub fn digest_from(outcome: Result<String, bcrypt::BcryptError>) -> (r: Result<String, HashingError>)
    ensures
        r == match outcome {
            Ok(digest) => Ok::<String, HashingError>(digest),
            Err(_) => Err(HashingError {}),
        },
{
    match outcome {
        Ok(digest) => Ok(digest),
        Err(_) => Err(HashingError {}),
    }
}

/// A digest that `hash` returned for a plaintext verifies against that
/// plaintext.
pub proof fn hashed_plaintext_verifies(plaintext: Seq<char>, digest: Seq<char>)
    requires
        hashes_to(plaintext, digest),
    ensures
        verdict(plaintext, digest) == Ok::<bool, HashingError>(true),
{
}

} // verus!
