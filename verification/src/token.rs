//! Opaque session tokens: fixed-length strings drawn from the 62-symbol
//! alphanumeric alphabet. Uniqueness is probabilistic only — the documented
//! policy — except that the two tokens of one session are made distinct
//! deterministically; here only the shape is guaranteed.

use vstd::prelude::*;
use crate::strings::push_char;

verus! {

/// The number of characters in a token.
pub const TOKEN_LEN: usize = 10;

/// The 62-symbol token alphabet: ASCII letters and digits.
pub open spec fn is_id_char(c: char) -> bool {
    ('A' <= c && c <= 'Z') || ('a' <= c && c <= 'z') || ('0' <= c && c <= '9')
}

/// A well-formed token: exactly `TOKEN_LEN` characters, all alphanumeric.
pub open spec fn valid_token(s: Seq<char>) -> bool {
    &&& s.len() == TOKEN_LEN
    &&& forall|i: int| 0 <= i < s.len() ==> is_id_char(#[trigger] s[i])
}

/// Relies on `rand::rngs::ThreadRng` via `Rng::gen_range`: a value drawn
/// uniformly from `[0, n)`; nothing beyond the bound is assumed.
#[verifier::external_body]
fn random_below(n: usize) -> (r: usize)
    requires
        0 < n,
    ensures
        r < n,
{
    rand::Rng::gen_range(&mut rand::thread_rng(), 0..n)
}

/// The `i`-th symbol of the alphabet, as a table: the capitals `A`-`Z` at
/// `0`-`25`, the small letters `a`-`z` at `26`-`51`, the digits `0`-`9` at
/// `52`-`61`.
pub open spec fn alphabet_at(i: int) -> char {
    if i < 26 {
        ((65 + i) as u8) as char
    } else if i < 52 {
        ((97 + (i - 26)) as u8) as char
    } else {
        ((48 + (i - 52)) as u8) as char
    }
}

/// The `i`-th symbol of the alphabet: exactly `alphabet_at(i)`, so each of
/// the 62 indices a caller draws yields its own symbol of the table.
pub fn alphabet_char(i: usize) -> (c: char)
    requires
        i < 62,
    ensures
        c == alphabet_at(i as int),
        is_id_char(c),
{
    let b: u8 = if i < 26 {
        65 + (i as u8)
    } else if i < 52 {
        97 + ((i - 26) as u8)
    } else {
        48 + ((i - 52) as u8)
    };
    b as char
}

/// A token that provably differs from `t`: the first character is replaced
/// by one `t` does not have there. Used to repair the (astronomically rare)
/// event that two freshly drawn tokens coincide.
pub fn alter_first(t: &String) -> (r: String)
    requires
        valid_token(t@),
    ensures
        valid_token(r@),
        r@ != t@,
{
    let c0 = t.as_str().get_char(0);
    let nc: char = if c0 == 'A' {
        'B'
    } else {
        'A'
    };
    let mut s = String::new();
    push_char(&mut s, nc);
    let rest = t.as_str().substring_char(1, TOKEN_LEN);
    s.append(rest);
    proof {
        assert(s@.len() == TOKEN_LEN);
        assert(forall|i: int| 0 <= i < s@.len() ==> is_id_char(#[trigger] s@[i])) by {
            assert(forall|i: int| 1 <= i < s@.len() ==> s@[i] == t@[i]);
        }
        assert(s@[0] != t@[0]);
    }
    s
}

/// Generates a fresh token: `TOKEN_LEN` characters drawn uniformly at random
/// from the 62-symbol alphanumeric alphabet. Uniqueness is probabilistic
/// only; callers that need a token unseen by a registry must check and
/// regenerate.
pub fn generate_id() -> (r: String)
    ensures
        valid_token(r@),
{
    let mut s = String::new();
    let mut i: usize = 0;
    while i < TOKEN_LEN
        invariant
            i <= TOKEN_LEN,
            s@.len() == i,
            forall|j: int| 0 <= j < s@.len() ==> is_id_char(#[trigger] s@[j]),
        decreases TOKEN_LEN - i,
    {
        let k = random_below(62);
        let c = alphabet_char(k);
        push_char(&mut s, c);
        i += 1;
    }
    s
}

} // verus!
