//! Device tokens: generating, hashing and checking them, and the device hash.
use vstd::prelude::*;
use vstd::utf8::encode_utf8;
use rand::Rng;
use sha2::Digest;

use crate::codec::{base64_of, encode_standard};
use crate::error::FreshBluError;
use crate::text::push_char;

pub use crate::codec::parse_basic_auth;

verus! {

/// Length of a generated token.
pub const TOKEN_LENGTH: usize = 40;

/// Bcrypt cost of stored token hashes.
pub const BCRYPT_COST: u32 = 10;

/// `rand::thread_rng().gen_range(0..bound)`.
///
/// Trusted: the crate draws from the range it is given (which must not be
/// empty, else it panics), so the value is below `bound`; which one comes
/// out is chance, so nothing more is claimed.
#[verifier::external_body]
fn random_below(bound: u8) -> (b: u8)
    requires
        bound > 0,
    ensures
        b < bound,
{
    rand::thread_rng().gen_range(0..bound)
}

/// Whether a character is a lower-case hexadecimal digit.
pub open spec fn is_hex_char(c: char) -> bool {
    ('0' <= c && c <= '9') || ('a' <= c && c <= 'f')
}

/// The lower-case hexadecimal digit of a value below 16.
fn hex_char(n: u8) -> (c: char)
    requires
        n < 16,
    ensures
        is_hex_char(c),
        c as u32 == (if n < 10 {
            48 + n
        } else {
            87 + n
        }),
{
    let b: u8 = if n < 10 {
        48 + n
    } else {
        87 + n
    };
    let c = b as char;
    assert(c as u32 == b as u32);
    c
}

/// A new random plaintext token: 40 random lower-case hexadecimal digits.
pub fn generate_token() -> (t: String)
    ensures
        t@.len() == TOKEN_LENGTH,
        forall|i: int| 0 <= i < t@.len() ==> is_hex_char(#[trigger] t@[i]),
{
    let mut t = String::new();
    let mut i: usize = 0;
    while i < TOKEN_LENGTH
        invariant
            i <= TOKEN_LENGTH,
            t@.len() == i,
            forall|j: int| 0 <= j < i ==> is_hex_char(#[trigger] t@[j]),
        decreases TOKEN_LENGTH - i,
    {
        let n = random_below(16);
        push_char(&mut t, hex_char(n));
        i = i + 1;
    }
    t
}

/// A session token (shorter expiry, used for temporary access): a token as
/// `generate_token` makes one.
pub fn generate_session_token() -> (t: String)
    ensures
        t@.len() == TOKEN_LENGTH,
        forall|i: int| 0 <= i < t@.len() ==> is_hex_char(#[trigger] t@[i]),
{
    generate_token()
}

/// What `bcrypt::verify(password, hash)` gives: `Some(matches)`, or `None`
/// where the crate answers with an error (a malformed hash).
pub uninterp spec fn bcrypt_verify_result(password: Seq<char>, hash: Seq<char>) -> Option<bool>;

/// Whether a plaintext token checks against a stored hash.
pub open spec fn token_verifies(token: Seq<char>, hash: Seq<char>) -> bool {
    bcrypt_verify_result(token, hash) == Some(true)
}

/// The start of a bcrypt hash made with `cost` (below 100): `$2b$`, the
/// cost in two decimal digits, `$`.
pub open spec fn bcrypt_prefix(cost: u32) -> Seq<char> {
    seq!['$', '2', 'b', '$', ((48 + cost / 10) as u8) as char, ((48 + cost % 10) as u8) as char, '$']
}

/// `bcrypt::hash(password, cost)`, its error as text.
///
/// Trusted: the crate accepts costs from 4 to 31. It formats the hash as
/// `$2b$`, the cost in two digits, `$`, then the 22 characters of the salt
/// and the 31 of the digest, so that `bcrypt::verify` with the same password
/// accepts it; the salt is random, so the rest of the hash is left open.
#[verifier::external_body]
fn bcrypt_hash(password: &str, cost: u32) -> (r: Result<String, String>)
    requires
        4 <= cost <= 31,
    ensures
        r matches Ok(h) ==> bcrypt_verify_result(password@, h@) == Some(true),
        r matches Ok(h) ==> h@.len() == 60 && h@.subrange(0, 7) == bcrypt_prefix(cost),
{
    bcrypt::hash(password, cost).map_err(|e| e.to_string())
}

/// `bcrypt::verify(password, hash)`, its error dropped.
///
/// Trusted: the result is the crate's verdict on this password and hash.
#[verifier::external_body]
fn bcrypt_verify(password: &str, hash: &str) -> (r: Option<bool>)
    ensures
        r == bcrypt_verify_result(password@, hash@),
{
    bcrypt::verify(password, hash).ok()
}

/// Hashes a plaintext token with bcrypt at cost `BCRYPT_COST`. A hash that
/// comes back is one that the token verifies against, and names that cost.
pub fn hash_token(token: &str) -> (r: Result<String, FreshBluError>)
    ensures
        r matches Ok(h) ==> token_verifies(token@, h@),
        r matches Ok(h) ==> h@.len() == 60 && h@.subrange(0, 7) == bcrypt_prefix(BCRYPT_COST),
        r matches Err(e) ==> e is Internal,
{
    match bcrypt_hash(token, BCRYPT_COST) {
        Ok(h) => Ok(h),
        Err(e) => Err(FreshBluError::Internal(e)),
    }
}

/// Checks a plaintext token against a bcrypt hash; a malformed hash checks
/// as a mismatch.
pub fn verify_token(token: &str, hash: &str) -> (b: bool)
    ensures
        b == token_verifies(token@, hash@),
{
    match bcrypt_verify(token, hash) {
        Some(b) => b,
        None => false,
    }
}

/// What the SHA-256 digest of some bytes is.
pub uninterp spec fn sha256_digest(bytes: Seq<u8>) -> Seq<u8>;

/// `sha2::Sha256::digest`.
///
/// Trusted: the result is the crate's SHA-256 digest of the bytes, 32 bytes long.
#[verifier::external_body]
fn sha256(bytes: &[u8]) -> (r: Vec<u8>)
    ensures
        r@ == sha256_digest(bytes@),
        r@.len() == 32,
{
    sha2::Sha256::digest(bytes).to_vec()
}

/// The device hash: base64 of the SHA-256 digest of the device's JSON text.
pub fn compute_device_hash(device_json: &str) -> (r: String)
    ensures
        r@ == base64_of(sha256_digest(encode_utf8(device_json@))),
{
    let digest = sha256(device_json.as_bytes());
    encode_standard(digest.as_slice())
}

} // verus!
