//! The wire-token codec.
//!
//! Every interactive control carries a token of the shape
//! `"{menu code}:{payload}"`. Encoding and decoding are verified against
//! [`token_spec`] and [`parse_token_spec`], and
//! [`lemma_token_round_trip`] states the law that decoding an encoded token
//! gives the menu and payload back whenever the payload avoids the
//! delimiter.

use vstd::prelude::*;
use crate::keyboard::MenuCode;
use crate::numbers::{dec_int, i32_to_string, is_digit, is_i32_str, i32_str_val,
    lemma_dec_digits_val, lemma_parse_of_dec_int, parse_i32};

verus! {

/// Why a token, or the interaction carrying it, was rejected.
#[derive(Debug, Clone, Copy, PartialEq, Eq, Structural)]
pub enum TokenError {
    /// The token has no delimiter, or its prefix is not a number.
    MalformedToken,
    /// The numeric prefix names no known menu.
    UnknownMenuCode,
    /// The token's menu is not the menu the conversation is in: a stale
    /// button from an earlier render was pressed.
    MenuMismatch,
}

/// The delimiter between the menu code and the payload; payloads never
/// contain it.
pub const CD_DELIMETER: char = ':';

/// What an encoded token looks like: the menu code in decimal, the
/// delimiter, then the payload.
pub open spec fn token_spec(menu: MenuCode, payload: Seq<char>) -> Seq<char> {
    dec_int(menu.code_spec()) + seq![':'] + payload
}

/// Encodes a `(menu, payload)` pair into one wire token.
pub fn encode_token(menu: MenuCode, payload: &str) -> (r: String)
    ensures
        r@ == token_spec(menu, payload@),
{
    let mut s = i32_to_string(menu.code());
    s.append(":");
    s.append(payload);
    proof {
        reveal_strlit(":");
        assert(s@ =~= token_spec(menu, payload@));
    }
    s
}

/// The first position at or after `from` holding the delimiter, or the
/// length of `s` when there is none.
pub open spec fn find_delim(s: Seq<char>, from: int) -> int
    recommends
        0 <= from,
    decreases s.len() - from,
{
    if from >= s.len() {
        s.len() as int
    } else if s[from] == ':' {
        from
    } else {
        find_delim(s, from + 1)
    }
}

proof fn lemma_find_delim_at(s: Seq<char>, from: int, i: int)
    requires
        0 <= from <= i <= s.len(),
        forall|k: int| from <= k < i ==> s[k] != ':',
        i == s.len() || s[i] == ':',
    ensures
        find_delim(s, from) == i,
    decreases i - from,
{
    if from < i {
        lemma_find_delim_at(s, from + 1, i);
    }
}

/// What decoding a token yields: the menu and the payload, or the exact
/// error. The payload runs from the first delimiter to the second one or to
/// the end, whichever comes first.
pub open spec fn parse_token_spec(s: Seq<char>) -> Result<(MenuCode, Seq<char>), TokenError> {
    let i = find_delim(s, 0);
    if i == s.len() {
        Err(TokenError::MalformedToken)
    } else {
        let prefix = s.take(i);
        let payload = s.subrange(i + 1, find_delim(s, i + 1));
        if !is_i32_str(prefix) {
            Err(TokenError::MalformedToken)
        } else {
            match MenuCode::from_code_spec(i32_str_val(prefix)) {
                Some(menu) => Ok((menu, payload)),
                None => Err(TokenError::UnknownMenuCode),
            }
        }
    }
}

/// Decodes a wire token into its menu and payload.
///
/// Fails with `MalformedToken` when the delimiter is missing or the prefix
/// is not a number, and with `UnknownMenuCode` when the number names no
/// menu, exactly as [`parse_token_spec`] says.
pub fn callback_parse(callback_data: &str) -> (r: Result<(MenuCode, String), TokenError>)
    ensures
        parse_token_spec(callback_data@) matches Ok(q) ==> r matches Ok(p) && p.0 == q.0
            && p.1@ == q.1,
        parse_token_spec(callback_data@) matches Err(e) ==> r matches Err(e2) && e == e2,
{
    let n = callback_data.unicode_len();
    let mut i: usize = 0;
    while i < n && callback_data.get_char(i) != ':'
        invariant
            0 <= i <= n,
            n == callback_data@.len(),
            forall|k: int| 0 <= k < i ==> callback_data@[k] != ':',
        decreases n - i,
    {
        i += 1;
    }
    proof {
        lemma_find_delim_at(callback_data@, 0, i as int);
    }
    if i == n {
        return Err(TokenError::MalformedToken);
    }
    let prefix = callback_data.substring_char(0, i);
    let mut j: usize = i + 1;
    while j < n && callback_data.get_char(j) != ':'
        invariant
            i + 1 <= j <= n,
            n == callback_data@.len(),
            forall|k: int| i + 1 <= k < j ==> callback_data@[k] != ':',
        decreases n - j,
    {
        j += 1;
    }
    proof {
        lemma_find_delim_at(callback_data@, i as int + 1, j as int);
    }
    let payload = callback_data.substring_char(i + 1, j);
    proof {
        assert(prefix@ =~= callback_data@.take(i as int));
    }
    match parse_i32(prefix) {
        None => Err(TokenError::MalformedToken),
        Some(v) => {
            match MenuCode::from_code(v) {
                None => Err(TokenError::UnknownMenuCode),
                Some(menu) => Ok((menu, String::from_str(payload))),
            }
        },
    }
}

/// Decoding an encoded token gives the menu and the payload back, for every
/// payload free of the delimiter.
pub proof fn lemma_token_round_trip(menu: MenuCode, payload: Seq<char>)
    requires
        !payload.contains(':'),
    ensures
        parse_token_spec(token_spec(menu, payload)) == Ok::<(MenuCode, Seq<char>), TokenError>(
            (menu, payload),
        ),
{
    let code = menu.code_spec();
    let a = dec_int(code);
    let s = token_spec(menu, payload);
    lemma_dec_digits_val(code as nat);
    assert forall|k: int| 0 <= k < a.len() implies s[k] != ':' by {
        assert(s[k] == a[k]);
        assert(is_digit(a[k]));
    }
    assert(s[a.len() as int] == ':');
    lemma_find_delim_at(s, 0, a.len() as int);
    assert forall|k: int| a.len() + 1 <= k < s.len() implies s[k] != ':' by {
        assert(s[k] == payload[k - a.len() - 1]);
        if s[k] == ':' {
            assert(payload.contains(':'));
        }
    }
    lemma_find_delim_at(s, a.len() as int + 1, s.len() as int);
    assert(s.take(a.len() as int) =~= a);
    assert(s.subrange(a.len() as int + 1, s.len() as int) =~= payload);
    lemma_parse_of_dec_int(code);
    assert(MenuCode::from_code_spec(menu.code_spec()) == Some(menu));
}

} // verus!
