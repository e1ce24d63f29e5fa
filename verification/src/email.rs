//! Email addresses: which strings are accepted, and the form they are kept in.
use vstd::prelude::*;
use vstd::string::is_ascii_spec_bytes;
use vstd::utf8::is_ascii_chars;

verus! {

/// The longest local part, before the `@`.
pub const MAX_LOCAL_LENGTH: usize = 64;

/// The longest domain, after the `@`.
pub const MAX_DOMAIN_LENGTH: usize = 255;

/// An ASCII letter or digit.
pub open spec fn is_alphanumeric(c: char) -> bool {
    ||| '0' <= c <= '9'
    ||| 'a' <= c <= 'z'
    ||| 'A' <= c <= 'Z'
}

/// A character that may stand before the `@`.
pub open spec fn is_local_char(c: char) -> bool {
    ||| is_alphanumeric(c)
    ||| c == '.'
    ||| c == '!'
    ||| c == '#'
    ||| c == '$'
    ||| c == '%'
    ||| c == '&'
    ||| c == '\''
    ||| c == '*'
    ||| c == '+'
    ||| c == '/'
    ||| c == '='
    ||| c == '?'
    ||| c == '^'
    ||| c == '_'
    ||| c == '`'
    ||| c == '{'
    ||| c == '|'
    ||| c == '}'
    ||| c == '~'
    ||| c == '-'
}

/// A character that may stand after the `@`.
pub open spec fn is_domain_char(c: char) -> bool {
    is_alphanumeric(c) || c == '-' || c == '.'
}

/// A local part: 1 to 64 characters, each allowed before the `@`.
pub open spec fn is_valid_local(s: Seq<char>) -> bool {
    &&& 1 <= s.len() <= MAX_LOCAL_LENGTH
    &&& forall|i: int| 0 <= i < s.len() ==> is_local_char(#[trigger] s[i])
}

/// A domain: 1 to 255 characters, each allowed after the `@`, that neither
/// starts nor ends with a dot or a hyphen and holds no two dots in a row.
pub open spec fn is_valid_domain(d: Seq<char>) -> bool {
    &&& 1 <= d.len() <= MAX_DOMAIN_LENGTH
    &&& forall|i: int| 0 <= i < d.len() ==> is_domain_char(#[trigger] d[i])
    &&& d[0] != '.' && d[0] != '-'
    &&& d[d.len() - 1] != '.' && d[d.len() - 1] != '-'
    &&& forall|i: int| 0 <= i < d.len() - 1 ==> !(#[trigger] d[i] == '.' && d[i + 1] == '.')
}

/// A well-formed email address: a local part, an `@`, a domain.
pub open spec fn is_valid_email(s: Seq<char>) -> bool {
    exists|at: int|
        0 <= at < s.len() && #[trigger] s[at] == '@' && is_valid_local(s.subrange(0, at))
            && is_valid_domain(s.subrange(at + 1, s.len() as int))
}

fn alphanumeric_byte(b: u8) -> (r: bool)
    ensures
        r == is_alphanumeric(b as char),
{
    (48 <= b && b <= 57) || (97 <= b && b <= 122) || (65 <= b && b <= 90)
}

fn local_byte(b: u8) -> (r: bool)
    ensures
        r == is_local_char(b as char),
{
    alphanumeric_byte(b) || b == 46 || b == 33 || b == 35 || b == 36 || b == 37 || b == 38 || b
        == 39 || b == 42 || b == 43 || b == 47 || b == 61 || b == 63 || b == 94 || b == 95 || b
        == 96 || b == 123 || b == 124 || b == 125 || b == 126 || b == 45
}

fn domain_byte(b: u8) -> (r: bool)
    ensures
        r == is_domain_char(b as char),
{
    alphanumeric_byte(b) || b == 45 || b == 46
}

/// Every character of a well-formed address is ASCII.
pub proof fn lemma_valid_email_is_ascii(s: Seq<char>)
    requires
        is_valid_email(s),
    ensures
        is_ascii_chars(s),
{
    let at = choose|at: int|
        0 <= at < s.len() && #[trigger] s[at] == '@' && is_valid_local(s.subrange(0, at))
            && is_valid_domain(s.subrange(at + 1, s.len() as int));
    let local = s.subrange(0, at);
    let domain = s.subrange(at + 1, s.len() as int);
    assert forall|i: int| 0 <= i < s.len() implies '\0' <= #[trigger] s[i] <= '\u{7f}' by {
        if i < at {
            assert(is_local_char(local[i]));
        } else if i > at {
            assert(is_domain_char(domain[i - at - 1]));
        }
    }
}

/// Whether a string is a well-formed email address. Nothing is said of
/// whether an account exists for it.
pub fn email_is_valid(email: &str) -> (r: bool)
    ensures
        r == is_valid_email(email@),
{
    broadcast use is_ascii_spec_bytes;

    if !email.is_ascii() {
        proof {
            if is_valid_email(email@) {
                lemma_valid_email_is_ascii(email@);
            }
        }
        return false;
    }
    let bytes = email.as_bytes();
    let n = bytes.len();
    let ghost s = email@;
    assert(n == s.len());
    assert(forall|i: int| 0 <= i < n ==> bytes@[i] == (#[trigger] s[i]) as u8);
    assert(forall|i: int| 0 <= i < n ==> (bytes@[i] as char) == #[trigger] s[i]);
    let mut at: usize = 0;
    while at < n && bytes[at] != 64
        invariant
            at <= n,
            n == s.len(),
            n == bytes@.len(),
            forall|i: int| 0 <= i < n ==> (bytes@[i] as char) == #[trigger] s[i],
            forall|i: int| 0 <= i < at ==> #[trigger] s[i] != '@',
        decreases n - at,
    {
        at += 1;
    }
    if at == n {
        return false;
    }
    assert(s[at as int] == '@');
    // A valid address has its `@` here: no character before it is one, and
    // none of a local part is.
    assert forall|w: int|
        0 <= w < s.len() && s[w] == '@' && is_valid_local(s.subrange(0, w)) implies w
        == at as int by {
        if w > at as int {
            assert(is_local_char(s.subrange(0, w)[at as int]));
        }
    }
    let ghost local = s.subrange(0, at as int);
    let ghost domain = s.subrange(at as int + 1, n as int);
    assert(is_valid_email(s) ==> is_valid_local(local) && is_valid_domain(domain));
    if at == 0 || at > MAX_LOCAL_LENGTH {
        return false;
    }
    let mut i: usize = 0;
    while i < at
        invariant
            i <= at < n,
            n == s.len(),
            n == bytes@.len(),
            local == s.subrange(0, at as int),
            s == email@,
            is_valid_email(s) ==> is_valid_local(local),
            forall|k: int| 0 <= k < n ==> (bytes@[k] as char) == #[trigger] s[k],
            forall|k: int| 0 <= k < i ==> is_local_char(#[trigger] local[k]),
        decreases at - i,
    {
        if !local_byte(bytes[i]) {
            assert(!is_local_char(local[i as int]));
            return false;
        }
        i += 1;
    }
    assert(is_valid_local(local));
    let start: usize = at + 1;
    let len: usize = n - start;
    if len == 0 || len > MAX_DOMAIN_LENGTH {
        return false;
    }
    let first: u8 = bytes[start];
    let last: u8 = bytes[n - 1];
    assert(domain[0] == first as char);
    assert(domain[domain.len() - 1] == last as char);
    if first == 46 || first == 45 || last == 46 || last == 45 {
        return false;
    }
    let mut j: usize = 0;
    while j < len
        invariant
            j <= len,
            start + len == n,
            start == at + 1,
            n == s.len(),
            n == bytes@.len(),
            domain == s.subrange(at as int + 1, n as int),
            s == email@,
            is_valid_email(s) ==> is_valid_domain(domain),
            forall|k: int| 0 <= k < n ==> (bytes@[k] as char) == #[trigger] s[k],
            forall|k: int| 0 <= k < j ==> is_domain_char(#[trigger] domain[k]),
            forall|k: int| 0 <= k < j - 1 ==> !(#[trigger] domain[k] == '.' && domain[k + 1] == '.'),
        decreases len - j,
    {
        let b: u8 = bytes[start + j];
        assert(domain[j as int] == b as char);
        if !domain_byte(b) {
            return false;
        }
        if j > 0 && b == 46 && bytes[start + j - 1] == 46 {
            assert(domain[j - 1] == '.' && domain[j - 1 + 1] == '.');
            return false;
        }
        j += 1;
    }
    assert(is_valid_domain(domain));
    true
}

/// The lower-case form of an ASCII capital; any other character is itself.
pub open spec fn lower_char(c: char) -> char {
    if 'A' <= c <= 'Z' {
        ((c as u8) + 32) as char
    } else {
        c
    }
}

/// A string with each ASCII capital replaced by its lower-case form.
pub open spec fn lowercase(s: Seq<char>) -> Seq<char> {
    s.map_values(|c: char| lower_char(c))
}

/// Calls `str::to_ascii_lowercase`. Trusted: the result has the characters of
/// the argument in order, with `A` to `Z` mapped to `a` to `z` and every other
/// character unchanged.
#[verifier::external_body]
fn to_ascii_lowercase(s: &str) -> (r: String)
    ensures
        r@ == lowercase(s@),
{
    s.to_ascii_lowercase()
}

/// The form in which an email address is stored and looked up.
pub fn normalise_email(email: &str) -> (r: String)
    ensures
        r@ == lowercase(email@),
        is_valid_email(email@) ==> is_valid_email(r@),
{
    proof {
        if is_valid_email(email@) {
            lemma_lowercase_keeps_valid(email@);
        }
    }
    to_ascii_lowercase(email)
}

/// Lower-casing a well-formed address gives a well-formed address.
pub proof fn lemma_lowercase_keeps_valid(s: Seq<char>)
    requires
        is_valid_email(s),
    ensures
        is_valid_email(lowercase(s)),
{
    let at = choose|at: int|
        0 <= at < s.len() && #[trigger] s[at] == '@' && is_valid_local(s.subrange(0, at))
            && is_valid_domain(s.subrange(at + 1, s.len() as int));
    let t = lowercase(s);
    let local = s.subrange(0, at);
    let domain = s.subrange(at + 1, s.len() as int);
    let tl = t.subrange(0, at);
    let td = t.subrange(at + 1, t.len() as int);
    assert(t[at] == '@');
    assert forall|i: int| 0 <= i < tl.len() implies is_local_char(#[trigger] tl[i]) by {
        assert(is_local_char(local[i]));
        assert(tl[i] == lower_char(local[i]));
    }
    assert forall|i: int| 0 <= i < td.len() implies is_domain_char(#[trigger] td[i]) by {
        assert(is_domain_char(domain[i]));
        assert(td[i] == lower_char(domain[i]));
    }
    assert forall|i: int| 0 <= i < td.len() implies (#[trigger] td[i] == '.') == (domain[i]
        == '.') && (td[i] == '-') == (domain[i] == '-') by {
        assert(td[i] == lower_char(domain[i]));
    }
    assert(is_valid_local(tl));
    assert(is_valid_domain(td));
}

} // verus!
