use vstd::prelude::*;

use crate::text::{decimal, starts_with_text, zero_padded};

verus! {

/// The cost that the service hashes passwords with: `bcrypt::DEFAULT_COST`,
/// which the crate defines as 12.
#[verifier::external_body]
pub fn default_cost() -> (res: u32)
    ensures
        res == 12,
{
    bcrypt::DEFAULT_COST
}

/// The start of a hash made with `cost`: the version `$2b$`, the cost in two
/// digits, and `$`.
pub open spec fn bcrypt_prefix(cost: u32) -> Seq<char> {
    "$2b$"@ + zero_padded(decimal(cost as nat), 2) + "$"@
}

/// The form of a bcrypt hash made with `cost`: 60 characters, starting with
/// `$2b$`, the cost in two digits and `$` (then the salt and the hash in
/// bcrypt's base 64).
pub open spec fn bcrypt_hash_form(cost: u32, hash: Seq<char>) -> bool {
    hash.len() == 60 && starts_with_text(hash, bcrypt_prefix(cost))
}

/// What `bcrypt::verify(password, hash)` gives: whether the password matches
/// the hash, or the text of the error when the hash cannot be read.
pub uninterp spec fn bcrypt_verify_outcome(password: Seq<char>, hash: Seq<char>) -> Result<bool, Seq<char>>;

/// `bcrypt::verify` accepts `password` against `hash`.
pub open spec fn password_matches(password: Seq<char>, hash: Seq<char>) -> bool {
    bcrypt_verify_outcome(password, hash) == Ok::<bool, Seq<char>>(true)
}

/// `bcrypt::hash(password, cost)`. The salt is random, so the hash itself is
/// not determined; the claims are that a cost outside 4..=31 is refused,
/// that a hash has the form that `HashParts::format` writes (version `2b`,
/// the cost in two digits, 60 characters in all), and that `bcrypt::verify`
/// accepts the password against a hash that was made (the salt and cost are
/// read back from the hash and the password hashed again in the same way).
/// Hashing can also fail when the system gives no randomness for the salt
/// (`getrandom`), and with an allowed cost that is the only failure: its
/// text is `Rand error: ` and the cause.
#[verifier::external_body]
pub fn hash_password(password: &str, cost: u32) -> (res: Result<String, String>)
    ensures
        res is Ok ==> 4 <= cost && cost <= 31,
        res matches Err(e) ==> (4 <= cost && cost <= 31 ==> starts_with_text(e@, "Rand error: "@)),
        res is Ok ==> password_matches(password@, res->Ok_0@),
        res is Ok ==> bcrypt_hash_form(cost, res->Ok_0@),
{
    match bcrypt::hash(password, cost) {
        Ok(h) => Ok(h),
        Err(e) => Err(e.to_string()),
    }
}

/// `bcrypt::verify(password, hash)`, the error given as its text.
#[verifier::external_body]
pub fn verify_password(password: &str, hash: &str) -> (res: Result<bool, String>)
    ensures
        match bcrypt_verify_outcome(password@, hash@) {
            Ok(b) => res matches Ok(r) && r == b,
            Err(m) => res matches Err(e) && e@ == m,
        },
{
    match bcrypt::verify(password, hash) {
        Ok(b) => Ok(b),
        Err(e) => Err(e.to_string()),
    }
}

} // verus!
