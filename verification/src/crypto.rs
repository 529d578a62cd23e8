use vstd::prelude::*;

verus! {

/// Whether bcrypt accepts `password` against `hash`: the value of
/// `bcrypt::verify(password, hash) == Ok(true)`, a function of the two
/// arguments alone (the salt is carried inside the hash).
pub uninterp spec fn bcrypt_matches(password: Seq<char>, hash: Seq<char>) -> bool;

/// Relies on bcrypt::hash: a freshly salted hash of `password` with the given
/// cost. The salt is drawn from the operating system, so the hash itself is
/// not pinned; every successful outcome is a hash that bcrypt::verify accepts
/// for `password`, since verify re-derives the hash from the salt and cost
/// stored inside it.
#[verifier::external_body]
pub(crate) fn hash_password(password: &str, cost: u32) -> (r: Option<String>)
    ensures
        r is Some ==> bcrypt_matches(password@, r->0@),
{
    bcrypt::hash(password, cost).ok()
}

/// Relies on bcrypt::verify: deterministic in `password` and `hash`. A hash
/// that bcrypt rejects as malformed is reported as a non-match.
#[verifier::external_body]
pub(crate) fn verify_password(password: &str, hash: &str) -> (r: bool)
    ensures
        r == bcrypt_matches(password@, hash@),
{
    match bcrypt::verify(password, hash) {
        Ok(b) => b,
        Err(_) => false,
    }
}

} // verus!
