//! Password hashing with bcrypt.

use vstd::prelude::*;

verus! {

/// The error type of the bcrypt crate. Nothing is known of a value but that
/// it can be turned into a message.
#[verifier::external_type_specification]
#[verifier::external_body]
pub struct ExBcryptError(bcrypt::BcryptError);

/// What `bcrypt::verify` makes of a password and a stored hash: `Some(true)`
/// where the password matches, `Some(false)` where it does not, and `None`
/// where the call fails, because the stored text is no bcrypt hash or names
/// a cost outside 4 to 31.
pub uninterp spec fn bcrypt_verify(password: Seq<char>, hash: Seq<char>) -> Option<bool>;

/// The decimal digit of `d`, for `d` from 0 to 9.
pub open spec fn digit(d: int) -> char {
    if d == 0 {
        '0'
    } else if d == 1 {
        '1'
    } else if d == 2 {
        '2'
    } else if d == 3 {
        '3'
    } else if d == 4 {
        '4'
    } else if d == 5 {
        '5'
    } else if d == 6 {
        '6'
    } else if d == 7 {
        '7'
    } else if d == 8 {
        '8'
    } else {
        '9'
    }
}

/// How a hash of the given cost begins: the version `$2b$`, the cost in two
/// digits, and `$`.
pub open spec fn hash_prefix(cost: u32) -> Seq<char> {
    seq!['$', '2', 'b', '$', digit(cost as int / 10), digit(cost as int % 10), '$']
}

/// The length of a hash.
pub const HASH_LEN: usize = 60;

/// Whether the text has the shape of a hash of the given cost: 60 characters
/// of ASCII that begin with `hash_prefix(cost)`. Salt and digest follow.
pub open spec fn hash_shaped(hash: Seq<char>, cost: u32) -> bool {
    &&& hash.len() == HASH_LEN
    &&& hash.subrange(0, 7) == hash_prefix(cost)
    &&& forall|i: int| 0 <= i < hash.len() ==> (#[trigger] hash[i]) <= '\u{7f}'
}

/// `bcrypt::hash` draws a random salt and hashes the password with it at the
/// given cost. It fails where the cost is outside 4 to 31 or no randomness can
/// be had. The hash differs from call to call. What is said of it is its
/// shape, which the crate writes as `$2b$`, the cost in two digits, `$`, 22
/// characters of salt and 31 of digest, all ASCII; and that `bcrypt::verify`
/// accepts the same password against it: `verify` splits cost and salt off
/// the text that `hash` wrote and repeats the computation.
#[verifier::external_body]
pub(crate) fn hash(password: &String, cost: u32) -> (r: Result<String, bcrypt::BcryptError>)
    ensures
        r is Ok ==> 4 <= cost <= 31,
        r matches Ok(h) ==> hash_shaped(h@, cost),
        r matches Ok(h) ==> bcrypt_verify(password@, h@) == Some(true),
{
    bcrypt::hash(password, cost)
}

/// `bcrypt::verify` takes cost and salt from the stored hash, hashes the
/// password with them and compares. The outcome depends on the two texts
/// alone and goes by the name `bcrypt_verify`.
#[verifier::external_body]
pub(crate) fn verify(password: &String, hash: &String) -> (r: Result<bool, bcrypt::BcryptError>)
    ensures
        match r {
            Ok(matches) => bcrypt_verify(password@, hash@) == Some(matches),
            Err(_) => bcrypt_verify(password@, hash@) is None,
        },
{
    bcrypt::verify(password, hash)
}

/// The text that `BcryptError` displays. Nothing is claimed of it.
#[verifier::external_body]
pub(crate) fn error_message(error: &bcrypt::BcryptError) -> String {
    error.to_string()
}

/// A text shaped as a hash differs from every text of another length, and
/// from every text that begins otherwise. So a password is stored in the
/// clear only if it is itself 60 characters long and begins as its hash does.
pub proof fn lemma_hash_is_no_other_text(hash: Seq<char>, cost: u32, text: Seq<char>)
    requires
        hash_shaped(hash, cost),
        text.len() != HASH_LEN || text.subrange(0, 7) != hash_prefix(cost),
    ensures
        hash != text,
{
}

} // verus!
