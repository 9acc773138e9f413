//! Randomness, identifiers and password hashing, provided by outside crates.
//!
//! Each function here makes one call into `rand`, `uuid` or `bcrypt`; its
//! contract states what that crate promises of the call and is trusted, not
//! proved.
use rand::RngExt;
use vstd::prelude::*;

verus! {

/// The error type of the `bcrypt` crate.
#[verifier::external_type_specification]
#[verifier::external_body]
pub struct ExBcryptError(bcrypt::BcryptError);

/// A UUID value of the `uuid` crate.
#[verifier::external_type_specification]
#[verifier::external_body]
pub struct ExUuid(uuid::Uuid);

/// What `bcrypt::verify(password, hash)` returns: `Some(matches)` when it
/// returns `Ok(matches)`, `None` when it returns an error.
pub uninterp spec fn bcrypt_verify_outcome(password: Seq<char>, hash: Seq<char>) -> Option<bool>;

/// Whether `c` is a lowercase hexadecimal digit.
pub open spec fn is_lower_hex_char(c: char) -> bool {
    ('0' <= c && c <= '9') || ('a' <= c && c <= 'f')
}

/// The hyphenated text form of a UUID: 36 characters, hyphens at positions 8,
/// 13, 18 and 23, lowercase hexadecimal digits everywhere else.
pub open spec fn is_hyphenated_uuid(s: Seq<char>) -> bool {
    &&& s.len() == 36
    &&& forall|i: int|
        0 <= i < 36 ==> if i == 8 || i == 13 || i == 18 || i == 23 {
            s[i] == '-'
        } else {
            is_lower_hex_char(#[trigger] s[i])
        }
}

/// `rand::random_range(lo..hi)`: a value drawn from the thread-local random
/// number generator. The crate panics on an empty range and otherwise returns
/// a value of the range; nothing more is stated, as the value is random.
#[verifier::external_body]
pub fn random_in_range(lo: i64, hi: i64) -> (r: i64)
    requires
        lo < hi,
    ensures
        lo <= r < hi,
{
    rand::random_range(lo..hi)
}

/// `rand::rng().fill(..)` on a buffer of `len` bytes: the bytes are random, so
/// only the length is stated.
#[verifier::external_body]
pub fn random_bytes(len: usize) -> (r: Vec<u8>)
    ensures
        r@.len() == len,
{
    let mut bytes = vec![0u8; len];
    rand::rng().fill(&mut bytes[..]);
    bytes
}

/// `uuid::Uuid::now_v7()`: a version 7 UUID made from the current time and
/// random bits; nothing is stated of its value.
#[verifier::external_body]
pub fn uuid_now_v7() -> uuid::Uuid {
    uuid::Uuid::now_v7()
}

/// `Uuid::to_string()`: the crate's `Display` writes the lowercase hyphenated
/// form (`format_hyphenated` in its `fmt` module).
#[verifier::external_body]
pub fn uuid_text(id: &uuid::Uuid) -> (r: String)
    ensures
        is_hyphenated_uuid(r@),
{
    id.to_string()
}

/// Whether `c` is an ASCII decimal digit.
pub open spec fn is_decimal_digit(c: char) -> bool {
    '0' <= c && c <= '9'
}

/// The value of the decimal digit `c`.
pub open spec fn decimal_digit_value(c: char) -> int {
    c as int - '0' as int
}

/// The hash text records `cost`: it starts with `$2b$`, then the cost in two
/// decimal digits, then `$`.
pub open spec fn has_bcrypt_cost(h: Seq<char>, cost: int) -> bool {
    &&& h.len() >= 7
    &&& h[0] == '$' && h[1] == '2' && h[2] == 'b' && h[3] == '$'
    &&& is_decimal_digit(h[4]) && is_decimal_digit(h[5])
    &&& decimal_digit_value(h[4]) * 10 + decimal_digit_value(h[5]) == cost
    &&& h[6] == '$'
}

/// `bcrypt::hash(password, cost)`: hashes with a random salt, so the hash
/// itself is not determined. The crate writes the hash as `$2b$`, the cost in
/// two digits, `$`, then salt and digest (`HashParts::format`), so the hash
/// records the cost it was made with; that is stated. The crate's `verify`
/// re-hashes the password with the salt and cost that the hash carries and
/// compares, so a hash that `hash` returned verifies its own password; that
/// is stated too. When `hash` fails (a cost outside `4..=31`, or no OS
/// randomness) nothing is stated.
#[verifier::external_body]
pub fn bcrypt_hash(password: &str, cost: u32) -> (r: Result<String, bcrypt::BcryptError>)
    ensures
        r matches Ok(h) ==> bcrypt_verify_outcome(password@, h@) == Some(true),
        r matches Ok(h) ==> has_bcrypt_cost(h@, cost as int),
{
    bcrypt::hash(password, cost)
}

/// `bcrypt::verify(password, hash)`: a deterministic function of its two
/// arguments, named by [`bcrypt_verify_outcome`].
#[verifier::external_body]
pub fn bcrypt_verify(password: &str, hash: &str) -> (r: Result<bool, bcrypt::BcryptError>)
    ensures
        match r {
            Ok(b) => bcrypt_verify_outcome(password@, hash@) == Some(b),
            Err(_) => bcrypt_verify_outcome(password@, hash@) is None,
        },
{
    bcrypt::verify(password, hash)
}

/// `BcryptError::to_string()`: the error's display text; nothing is stated of
/// it.
#[verifier::external_body]
pub fn bcrypt_error_text(e: &bcrypt::BcryptError) -> String {
    e.to_string()
}

} // verus!
