use vstd::prelude::*;

verus! {

/// What bcrypt's verify decides for a password against a stored hash:
/// `Some(b)` when the hash parses as a bcrypt string and the comparison
/// returns `b`, `None` when verification reports an error. The outcome is a
/// function of the two strings alone.
pub uninterp spec fn bcrypt_check(password: Seq<char>, hash: Seq<char>) -> Option<bool>;

/// Relies on bcrypt::hash at the default cost: a produced hash is a
/// 60-character bcrypt string that bcrypt::verify accepts, answering `true`
/// for the hashed password.
#[verifier::external_body]
pub(crate) fn hash_password(password: &str) -> (r: Option<String>)
    ensures
        r matches Some(h) ==> h@.len() == 60 && bcrypt_check(password@, h@) == Some(true),
{
    bcrypt::hash(password, bcrypt::DEFAULT_COST).ok()
}

/// Relies on bcrypt::verify: checks a password against a stored hash.
#[verifier::external_body]
pub(crate) fn verify_password(password: &str, hash: &str) -> (r: Option<bool>)
    ensures
        r == bcrypt_check(password@, hash@),
{
    bcrypt::verify(password, hash).ok()
}

} // verus!
