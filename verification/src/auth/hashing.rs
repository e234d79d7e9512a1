//! The one-way hash that stands in for a password.

use vstd::prelude::*;

verus! {

/// The work factor that passwords are hashed with.
pub const PASSWORD_HASH_COST: u32 = 10;

/// `bcrypt::BcryptError`: why the crate could not hash or compare. Nothing
/// is read from it.
#[verifier::external_type_specification]
#[verifier::external_body]
pub struct ExHashFailure(bcrypt::BcryptError);

/// Whether a password is the one that a bcrypt hash was made of, as
/// `bcrypt::verify` decides it; `None` where the hash cannot be read.
pub uninterp spec fn bcrypt_verdict(password: Seq<char>, hash: Seq<char>) -> Option<bool>;

/// `bcrypt::verify`: hashes the password with the salt and the cost that
/// the stored hash names and compares. The outcome depends on the two
/// texts alone.
#[verifier::external_body]
pub(crate) fn verify_password(password: &str, hash: &str) -> (outcome: Result<bool, bcrypt::BcryptError>)
    ensures
        match outcome {
            Ok(same) => bcrypt_verdict(password@, hash@) == Some(same),
            Err(_) => bcrypt_verdict(password@, hash@) is None,
        },
{
    bcrypt::verify(password, hash)
}

/// `bcrypt::hash`: a hash of the password under a salt that the operating
/// system draws at random, so the hash itself is not named. Whatever the
/// salt, the hash carries it together with the cost, and `bcrypt::verify`
/// recomputes from them: a hash that was made of a password matches that
/// password. The crate refuses a cost below 4 or above 31.
#[verifier::external_body]
pub(crate) fn hash_password(password: &str, cost: u32) -> (outcome: Result<String, bcrypt::BcryptError>)
    ensures
        cost < 4 || cost > 31 ==> outcome is Err,
        outcome matches Ok(hash) ==> bcrypt_verdict(password@, hash@) == Some(true),
{
    bcrypt::hash(password, cost)
}

/// What the comparison of a password with a stored hash came to.
#[derive(Debug, Clone, Copy, PartialEq, Eq, Structural)]
pub enum PasswordCheck {
    Matches,
    Differs,
    /// The stored hash could not be read.
    Unreadable,
}

/// What the comparison of a password with a stored hash comes to.
pub open spec fn password_check(password: Seq<char>, hash: Seq<char>) -> PasswordCheck {
    match bcrypt_verdict(password, hash) {
        Some(true) => PasswordCheck::Matches,
        Some(false) => PasswordCheck::Differs,
        None => PasswordCheck::Unreadable,
    }
}

/// Compares a password with a stored hash.
pub fn check_password(password: &str, hash: &str) -> (check: PasswordCheck)
    ensures
        check == password_check(password@, hash@),
{
    match verify_password(password, hash) {
        Ok(true) => PasswordCheck::Matches,
        Ok(false) => PasswordCheck::Differs,
        Err(_) => PasswordCheck::Unreadable,
    }
}

/// What is kept of the outcome of hashing: the hash, where there is one.
pub open spec fn hashed_spec(outcome: Result<String, bcrypt::BcryptError>) -> Option<String> {
    match outcome {
        Ok(hash) => Some(hash),
        Err(_) => None,
    }
}

/// Keeps the hash that hashing gave, and nothing where it failed.
pub fn hashed(outcome: Result<String, bcrypt::BcryptError>) -> (hash: Option<String>)
    ensures
        hash == hashed_spec(outcome),
{
    match outcome {
        Ok(hash) => Some(hash),
        Err(_) => None,
    }
}

/// Hashes a password for storage; `None` where hashing failed. The hash
/// differs from call to call, but every hash matches its password.
pub fn new_password_hash(password: &str) -> (hash: Option<String>)
    ensures
        hash matches Some(hash) ==> password_check(password@, hash@) == PasswordCheck::Matches,
{
    hashed(hash_password(password, PASSWORD_HASH_COST))
}

} // verus!
