//! Hashing and verifying a user's password with bcrypt.
use vstd::prelude::*;

verus! {

/// Relies on bcrypt::BcryptError only as an opaque value, which is mapped to
/// `PasswordError`.
#[verifier::external_type_specification]
#[verifier::external_body]
pub struct ExBcryptError(bcrypt::BcryptError);

/// Whether bcrypt accepts a password for a hash string: `None` where the
/// hash string is not a bcrypt hash.
pub uninterp spec fn bcrypt_verdict(password: Seq<char>, hash: Seq<char>) -> Option<bool>;

/// Why a password could not be hashed or checked.
#[derive(Debug, Clone, Copy, PartialEq, Eq, Structural)]
pub enum PasswordError {
    /// No salt could be drawn for a new hash.
    HashFailed,
    /// The stored hash is not a bcrypt hash.
    InvalidHash,
}

/// Relies on bcrypt::hash with bcrypt::DEFAULT_COST: on success, a hash
/// string of 60 characters under a salt drawn from the operating system.
#[verifier::external_body]
fn bcrypt_hash(password: &str) -> (r: Result<String, bcrypt::BcryptError>)
    ensures
        r matches Ok(h) ==> h@.len() == 60,
{
    bcrypt::hash(password, bcrypt::DEFAULT_COST)
}

/// Relies on bcrypt::verify: it recomputes the hash under the salt and cost
/// that the hash string holds, so its result depends on the two arguments
/// alone; a hash string that is not 60 characters is refused.
#[verifier::external_body]
fn bcrypt_verify(password: &str, hash: &str) -> (r: Result<bool, bcrypt::BcryptError>)
    ensures
        match r {
            Ok(b) => bcrypt_verdict(password@, hash@) == Some(b),
            Err(_) => bcrypt_verdict(password@, hash@) is None,
        },
        hash@.len() != 60 ==> r is Err,
{
    bcrypt::verify(password, hash)
}

/// Hashes a password under a fresh random salt. The result is a bcrypt hash
/// string of 60 characters.
pub fn hash(password: &str) -> (r: Result<String, PasswordError>)
    ensures
        r matches Ok(h) ==> h@.len() == 60,
        r matches Err(e) ==> e == PasswordError::HashFailed,
{
    match bcrypt_hash(password) {
        Ok(h) => Ok(h),
        Err(_) => Err(PasswordError::HashFailed),
    }
}

/// Checks a password against a stored bcrypt hash.
pub fn verify(password: &str, hash: &str) -> (r: Result<bool, PasswordError>)
    ensures
        match r {
            Ok(b) => bcrypt_verdict(password@, hash@) == Some(b),
            Err(e) => e == PasswordError::InvalidHash && bcrypt_verdict(password@, hash@) is None,
        },
        hash@.len() != 60 ==> r == Err::<bool, PasswordError>(PasswordError::InvalidHash),
{
    match bcrypt_verify(password, hash) {
        Ok(b) => Ok(b),
        Err(_) => Err(PasswordError::InvalidHash),
    }
}

} // verus!
