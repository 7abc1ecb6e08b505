use vstd::prelude::*;

verus! {

/// What bcrypt's `verify` answers for a password and a stored hash:
/// `Some(true)` or `Some(false)`, or `None` when the hash cannot be read.
pub uninterp spec fn bcrypt_verifies(password: Seq<char>, hash: Seq<char>) -> Option<bool>;

/// Hashes `password` with bcrypt's `hash` at the default cost and a fresh
/// random salt; `None` when no random salt could be had. Claimed: a hash it
/// gives back verifies the password (bcrypt recomputes the hash from the
/// salt and cost stored in it). Which salt is drawn is left unsaid.
#[verifier::external_body]
fn bcrypt_hash(password: &str) -> (res: Option<String>)
    ensures
        res matches Some(h) ==> bcrypt_verifies(password@, h@) == Some(true),
{
    match bcrypt::hash(password, bcrypt::DEFAULT_COST) {
        Ok(h) => Some(h),
        Err(_) => None,
    }
}

/// Checks `password` against `hash` with bcrypt's `verify`. Claimed: the
/// answer is `bcrypt_verifies` of the two, a function of them alone.
#[verifier::external_body]
fn bcrypt_verify(password: &str, hash: &str) -> (res: Option<bool>)
    ensures
        res == bcrypt_verifies(password@, hash@),
{
    match bcrypt::verify(password, hash) {
        Ok(b) => Some(b),
        Err(_) => None,
    }
}

/// A salted bcrypt hash of `password`, which verifies it; `None` when
/// hashing failed.
pub fn hash_password(password: &str) -> (res: Option<String>)
    ensures
        res matches Some(h) ==> bcrypt_verifies(password@, h@) == Some(true),
{
    bcrypt_hash(password)
}

/// Whether `password` matches the stored `hash`; `None` when the stored hash
/// is not a bcrypt hash.
pub fn verify_password(password: &str, hash: &str) -> (res: Option<bool>)
    ensures
        res == bcrypt_verifies(password@, hash@),
{
    bcrypt_verify(password, hash)
}

} // verus!
