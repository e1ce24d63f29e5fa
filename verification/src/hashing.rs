//! Password hashing with Argon2.
//!
//! The hashing itself is done by the `argon2` crate and is not verified here:
//! the two functions that call it state, without proof, what the crate's
//! source shows of them.
use vstd::prelude::*;
use vstd::utf8::encode_utf8;
use crate::util::Error;

verus! {

/// What `argon2::verify_encoded` returns for an encoded hash and the bytes of a
/// password: `Some(b)` where it returns `Ok(b)`, `None` where it returns an error.
pub uninterp spec fn argon2_verify(encoded: Seq<char>, pwd: Seq<u8>) -> Option<bool>;

/// What `argon2::hash_encoded` returns, under the crate's default
/// configuration, for the bytes of a password and of a salt: the encoded hash,
/// or `None` where it returns an error.
pub uninterp spec fn argon2_hash(pwd: Seq<u8>, salt: Seq<u8>) -> Option<Seq<char>>;

/// The shortest salt that Argon2 accepts, in bytes.
pub const MIN_SALT_LENGTH: usize = 8;

/// The longest password or salt that Argon2 accepts, in bytes.
pub const MAX_INPUT_LENGTH: usize = 0xFFFF_FFFF;

/// Whether Argon2 accepts a password and a salt of these lengths.
pub open spec fn hashable(pwd_len: nat, salt_len: nat) -> bool {
    &&& pwd_len <= MAX_INPUT_LENGTH
    &&& MIN_SALT_LENGTH <= salt_len <= MAX_INPUT_LENGTH
}

/// Whether a stored hash accepts a password.
pub open spec fn password_matches(hash: Seq<char>, password: Seq<char>) -> bool {
    argon2_verify(hash, encode_utf8(password)) == Some(true)
}

/// Calls `argon2::verify_encoded` and drops the crate's error. Trusted: the
/// result is the one that the crate computes from these two arguments and from
/// nothing else. The crate allocates as much memory as the encoded hash asks for.
#[verifier::external_body]
fn verify_encoded(encoded: &str, pwd: &[u8]) -> (r: Option<bool>)
    ensures
        r == argon2_verify(encoded@, pwd@),
{
    argon2::verify_encoded(encoded, pwd).ok()
}

/// Calls `argon2::hash_encoded` with `argon2::Config::default()` and drops the
/// crate's error. Trusted: the result is the one that the crate computes from
/// these two arguments; the crate refuses a salt under 8 bytes and an input
/// over 2^32 - 1 bytes, and nothing else; and a hash that it returns verifies
/// against the password it was made from.
#[verifier::external_body]
fn hash_encoded(pwd: &[u8], salt: &[u8]) -> (r: Option<String>)
    ensures
        match r {
            Some(h) => argon2_hash(pwd@, salt@) == Some(h@) && argon2_verify(h@, pwd@) == Some(true),
            None => argon2_hash(pwd@, salt@) is None,
        },
        r is Some <==> hashable(pwd@.len(), salt@.len()),
{
    argon2::hash_encoded(pwd, salt, &argon2::Config::default()).ok()
}

/// Checks a password against a stored hash. A hash that cannot be decoded
/// accepts no password.
pub fn verify_password(hash: &str, password: &str) -> (r: bool)
    ensures
        r == password_matches(hash@, password@),
{
    match verify_encoded(hash, password.as_bytes()) {
        Some(b) => b,
        None => false,
    }
}

/// Hashes a password with the given salt. Fails with `InternalError` exactly
/// when Argon2 refuses the input: a salt under 8 bytes, or a password or a
/// salt of 4 GiB or more.
pub fn hash_password(password: &str, salt: &str) -> (r: core::result::Result<String, Error>)
    ensures
        match r {
            Ok(h) => {
                &&& argon2_hash(encode_utf8(password@), encode_utf8(salt@)) == Some(h@)
                &&& password_matches(h@, password@)
            },
            Err(e) => {
                &&& e == Error::InternalError
                &&& argon2_hash(encode_utf8(password@), encode_utf8(salt@)) is None
            },
        },
        r is Ok <==> hashable(encode_utf8(password@).len(), encode_utf8(salt@).len()),
{
    match hash_encoded(password.as_bytes(), salt.as_bytes()) {
        Some(h) => Ok(h),
        None => Err(Error::InternalError),
    }
}

} // verus!
