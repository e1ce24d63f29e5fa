//! Random identifiers: session tokens, account and session ids, salts.
use vstd::prelude::*;

verus! {

/// The number of characters in a session token.
pub const TOKEN_LENGTH: usize = 64;

/// The number of characters in an account id or a session id.
pub const ID_LENGTH: usize = 26;

/// The number of characters in a password salt.
pub const SALT_LENGTH: usize = 24;

/// The characters that identifiers are drawn from: `A-Za-z0-9_-`.
pub open spec fn is_id_char(c: char) -> bool {
    ||| c == '_'
    ||| c == '-'
    ||| '0' <= c <= '9'
    ||| 'a' <= c <= 'z'
    ||| 'A' <= c <= 'Z'
}

/// A string of exactly `len` identifier characters.
pub open spec fn is_id(s: Seq<char>, len: nat) -> bool {
    &&& s.len() == len
    &&& forall|i: int| 0 <= i < s.len() ==> is_id_char(#[trigger] s[i])
}

/// The fixed format of a session token.
pub open spec fn is_token(s: Seq<char>) -> bool {
    is_id(s, TOKEN_LENGTH as nat)
}

/// Calls `nanoid::format` with the crate's operating-system generator and its
/// URL-safe alphabet. Trusted: the result has `size` characters, each of that
/// alphabet. Which characters is left open: they are random.
#[verifier::external_body]
fn random_id(size: usize) -> (r: String)
    ensures
        is_id(r@, size as nat),
{
    nanoid::format(nanoid::rngs::default, &nanoid::alphabet::SAFE, size)
}

/// A fresh session token.
pub fn generate_token() -> (r: String)
    ensures
        is_token(r@),
{
    random_id(TOKEN_LENGTH)
}

/// A fresh account or session id.
pub fn generate_id() -> (r: String)
    ensures
        is_id(r@, ID_LENGTH as nat),
{
    random_id(ID_LENGTH)
}

/// A fresh password salt.
pub fn generate_salt() -> (r: String)
    ensures
        is_id(r@, SALT_LENGTH as nat),
{
    random_id(SALT_LENGTH)
}

/// Identifiers are ASCII, so each character takes one byte.
pub proof fn lemma_id_is_ascii(s: Seq<char>, len: nat)
    requires
        is_id(s, len),
    ensures
        vstd::utf8::is_ascii_chars(s),
        vstd::utf8::encode_utf8(s).len() == len,
{
    assert forall|i: int| 0 <= i < s.len() implies '\0' <= #[trigger] s[i] <= '\u{7f}' by {
        assert(is_id_char(s[i]));
    }
    vstd::utf8::is_ascii_chars_encode_utf8(s);
}

} // verus!
