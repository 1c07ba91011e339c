//! Password hashing and checking, done by `bcrypt`.

use vstd::prelude::*;

verus! {

#[verifier::external_type_specification]
#[verifier::external_body]
pub struct ExBcryptError(bcrypt::BcryptError);

/// What `bcrypt::verify` says of a password and a hash: whether the hash is
/// one of that password, or `None` where it reports an error, as it does for
/// a text that is no bcrypt hash.
pub uninterp spec fn bcrypt_verdict(password: Seq<char>, hash: Seq<char>) -> Option<bool>;

/// Checks a password against a hash with `bcrypt::verify`.
///
/// Trusted: the outcome is a function of the two texts alone; the salt and
/// the cost are read from the hash.
#[verifier::external_body]
fn bcrypt_verify(password: &str, hash: &str) -> (r: Result<bool, bcrypt::BcryptError>)
    ensures
        r matches Ok(same) ==> bcrypt_verdict(password@, hash@) == Some(same),
        r is Err ==> bcrypt_verdict(password@, hash@) is None,
{
    bcrypt::verify(password, hash)
}

/// Hashes a password with `bcrypt::hash` at the default cost.
///
/// Trusted: the salt is drawn at random, so two calls differ; but a hash that
/// comes out is one that `bcrypt::verify` accepts for the same password,
/// since `verify` hashes the password again with the salt and the cost that
/// it reads from the hash.
#[verifier::external_body]
fn bcrypt_hash(password: &str) -> (r: Result<String, bcrypt::BcryptError>)
    ensures
        r matches Ok(hash) ==> bcrypt_verdict(password@, hash@) == Some(true),
{
    bcrypt::hash(password, bcrypt::DEFAULT_COST)
}

/// Whether `hash` is a hash of `password`, or `None` where that cannot be told.
pub fn password_matches(password: &str, hash: &str) -> (verdict: Option<bool>)
    ensures
        verdict == bcrypt_verdict(password@, hash@),
{
    match bcrypt_verify(password, hash) {
        Ok(same) => Some(same),
        Err(_) => None,
    }
}

/// A fresh hash of `password`, or `None` where hashing failed. Whatever the
/// salt that was drawn, the hash is one that matches the password.
pub fn hash_password(password: &str) -> (hash: Option<String>)
    ensures
        hash matches Some(h) ==> bcrypt_verdict(password@, h@) == Some(true),
{
    match bcrypt_hash(password) {
        Ok(h) => Some(h),
        Err(_) => None,
    }
}

} // verus!
