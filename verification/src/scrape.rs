//! The pure text parsing behind the schedule scraper: the year slot of a
//! movie's info line, the show time and ticket price of a session block,
//! and the search address a movie title maps to.
//!
//! Fetching pages and walking their HTML stays outside the library; these
//! functions take the extracted text fragments as plain strings.

use vstd::prelude::*;
use vstd::string::StringSliceAdditionalSpecFns;
use crate::dates::{char_digit, Time};
use crate::numbers::{dec_int, dec_val, i32_str_val, i32_to_string, is_digit, is_i32_str,
    parse_i32};
use vstd::utf8::encode_utf8;

verus! {

/// A text fragment that does not parse as the scraper expects.
#[derive(Debug, Clone, Copy, PartialEq, Eq, Structural)]
pub struct ScrapeError;

/// The whitespace the scraper strips from a fragment's ends.
pub open spec fn is_space(c: char) -> bool {
    c == ' ' || c == '\t' || c == '\n' || c == '\r'
}

pub open spec fn trim_front(s: Seq<char>) -> Seq<char>
    decreases s.len(),
{
    if s.len() > 0 && is_space(s[0]) {
        trim_front(s.drop_first())
    } else {
        s
    }
}

pub open spec fn trim_back(s: Seq<char>) -> Seq<char>
    decreases s.len(),
{
    if s.len() > 0 && is_space(s.last()) {
        trim_back(s.drop_last())
    } else {
        s
    }
}

/// A fragment with the whitespace stripped from both ends.
pub open spec fn trimmed(s: Seq<char>) -> Seq<char> {
    trim_back(trim_front(s))
}

fn is_space_char(c: char) -> (r: bool)
    ensures
        r == is_space(c),
{
    c == ' ' || c == '\t' || c == '\n' || c == '\r'
}

/// Strips the whitespace from both ends of a fragment.
pub fn trim_str<'a>(s: &'a str) -> (r: &'a str)
    ensures
        r@ == trimmed(s@),
{
    let n = s.unicode_len();
    proof {
        assert(s@.subrange(0, n as int) =~= s@);
    }
    let mut a: usize = 0;
    while a < n && is_space_char(s.get_char(a))
        invariant
            0 <= a <= n,
            n == s@.len(),
            trim_front(s@) == trim_front(s@.subrange(a as int, n as int)),
        decreases n - a,
    {
        proof {
            assert(s@.subrange(a as int, n as int).drop_first() =~= s@.subrange(
                a as int + 1,
                n as int,
            ));
        }
        a += 1;
    }
    proof {
        assert(trim_front(s@) == s@.subrange(a as int, n as int));
    }
    let mut b: usize = n;
    while b > a && is_space_char(s.get_char(b - 1))
        invariant
            a <= b <= n,
            n == s@.len(),
            trim_front(s@) == s@.subrange(a as int, n as int),
            trim_back(s@.subrange(a as int, n as int)) == trim_back(
                s@.subrange(a as int, b as int),
            ),
        decreases b,
    {
        proof {
            assert(s@.subrange(a as int, b as int).drop_last() =~= s@.subrange(
                a as int,
                b as int - 1,
            ));
        }
        b -= 1;
    }
    proof {
        assert(trim_back(s@.subrange(a as int, b as int)) == s@.subrange(a as int, b as int));
    }
    s.substring_char(a, b)
}

/// The first position at or after `from` holding a slash, or the length of
/// `s` when there is none.
pub open spec fn find_slash(s: Seq<char>, from: int) -> int
    recommends
        0 <= from,
    decreases s.len() - from,
{
    if from >= s.len() {
        s.len() as int
    } else if s[from] == '/' {
        from
    } else {
        find_slash(s, from + 1)
    }
}

proof fn lemma_find_slash_at(s: Seq<char>, from: int, i: int)
    requires
        0 <= from <= i <= s.len(),
        forall|k: int| from <= k < i ==> s[k] != '/',
        i == s.len() || s[i] == '/',
    ensures
        find_slash(s, from) == i,
    decreases i - from,
{
    if from < i {
        lemma_find_slash_at(s, from + 1, i);
    }
}

/// A cinema scraped off the schedule page.
#[derive(Default, Debug)]
pub struct MoskinoCinema {
    pub name: String,
}

/// A movie scraped off the schedule page, compared and deduplicated by
/// title alone.
#[derive(Default, Clone, Debug, Eq)]
pub struct MoskinoMovie {
    pub title: String,
    pub year: Option<i32>,
    pub genre: Option<String>,
    pub director: Option<String>,
    pub description: Option<String>,
    pub href_kinopoisk: Option<String>,
    pub href_moskino: Option<String>,
    pub country: Option<String>,
    pub duration: Option<i32>,
    pub age: Option<i32>,
    pub tagline: Option<String>,
}

impl PartialEq for MoskinoMovie {
    fn eq(&self, other: &Self) -> (r: bool) {
        self.title == other.title
    }
}

impl vstd::std_specs::cmp::PartialEqSpecImpl for MoskinoMovie {
    open spec fn obeys_eq_spec() -> bool {
        true
    }

    open spec fn eq_spec(&self, other: &MoskinoMovie) -> bool {
        self.title@ == other.title@
    }
}

/// What `MoskinoMovie::parse_year` accepts: everything before the first
/// slash, trimmed, read as a decimal year.
pub open spec fn parse_year_spec(s: Seq<char>) -> Option<i32> {
    let i = find_slash(s, 0);
    if i == s.len() {
        None
    } else {
        let t = trimmed(s.take(i));
        if is_i32_str(t) {
            Some(i32_str_val(t) as i32)
        } else {
            None
        }
    }
}

/// What the query slot of a search address holds: the title, and the year
/// after a space when one is known.
pub open spec fn search_query(name: Seq<char>, year: Option<i32>) -> Seq<char> {
    match year {
        Some(y) => name + " "@ + dec_int(y as int),
        None => name,
    }
}

/// What form_urlencoded's `byte_serialize` returns; it depends on the bytes
/// alone.
pub uninterp spec fn urlencoded_of(bytes: Seq<u8>) -> Seq<char>;

/// Relies on form_urlencoded's `byte_serialize`: the
/// `application/x-www-form-urlencoded` percent-encoding of the bytes.
#[verifier::external_body]
fn urlencode(s: &str) -> (r: String)
    ensures
        r@ == urlencoded_of(s.spec_bytes()),
{
    form_urlencoded::byte_serialize(s.as_bytes()).collect()
}

/// The search address a movie maps to: the fixed query prefix, then the
/// percent-encoded title-and-year query.
pub open spec fn search_url_spec(name: Seq<char>, year: Option<i32>) -> Seq<char> {
    "https://www.kinopoisk.ru/index.php?kp_query="@ + urlencoded_of(
        encode_utf8(search_query(name, year)),
    )
}

impl MoskinoMovie {
    /// Reads the year slot of a movie's info line: the text before the
    /// first slash, whitespace trimmed, as a decimal number.
    pub fn parse_year(raw: &str) -> (r: Result<i32, ScrapeError>)
        ensures
            parse_year_spec(raw@) matches Some(y) ==> r == Ok::<i32, ScrapeError>(y),
            parse_year_spec(raw@) is None ==> r is Err,
    {
        let n = raw.unicode_len();
        let mut i: usize = 0;
        while i < n && raw.get_char(i) != '/'
            invariant
                0 <= i <= n,
                n == raw@.len(),
                forall|k: int| 0 <= k < i ==> raw@[k] != '/',
            decreases n - i,
        {
            i += 1;
        }
        proof {
            lemma_find_slash_at(raw@, 0, i as int);
        }
        if i == n {
            return Err(ScrapeError);
        }
        let head = raw.substring_char(0, i);
        proof {
            assert(head@ =~= raw@.take(i as int));
        }
        match parse_i32(trim_str(head)) {
            Some(y) => Ok(y),
            None => Err(ScrapeError),
        }
    }

    /// Builds the search address for a movie title and, when known, its
    /// year.
    pub fn create_url_to_search(name: &str, year: Option<i32>) -> (r: String)
        ensures
            r@ == search_url_spec(name@, year),
    {
        let query = match year {
            Some(val) => {
                let mut q = String::from_str(name);
                q.append(" ");
                q.append(i32_to_string(val).as_str());
                proof {
                    reveal_strlit(" ");
                    assert(q@ =~= search_query(name@, year));
                }
                q
            },
            None => String::from_str(name),
        };
        let mut s = String::from_str("https://www.kinopoisk.ru/index.php?kp_query=");
        s.append(urlencode(query.as_str()).as_str());
        s
    }
}

/// The address of the schedule page for one day.
pub open spec fn schedule_url_spec(d: crate::dates::Date) -> Seq<char> {
    "https://mos-kino.ru/schedule/?date="@ + crate::dates::date_dash_token(d)
}

/// Builds the address of the schedule page for one day.
pub fn url_by_day(d: &crate::dates::Date) -> (r: String)
    requires
        crate::dates::valid_date(*d),
    ensures
        r@ == schedule_url_spec(*d),
{
    let mut s = String::from_str("https://mos-kino.ru/schedule/?date=");
    s.append(crate::dates::date_to_dash_string(d).as_str());
    s
}

/// What `char::is_alphanumeric` returns; it depends on the character
/// alone.
pub uninterp spec fn is_alphanum(c: char) -> bool;

/// Relies on std's `char::is_alphanumeric` for the Unicode letter-or-digit
/// test; its documentation fixes the ASCII cases stated here.
#[verifier::external_body]
fn alphanumeric(c: char) -> (r: bool)
    ensures
        r == is_alphanum(c),
        ('0' <= c <= '9' || 'a' <= c <= 'z' || 'A' <= c <= 'Z') ==> r,
        (c == ' ' || c == '/' || c == '.' || c == ':' || c == '-') ==> !r,
{
    c.is_alphanumeric()
}

/// A word character, as the price pattern counts them: a letter or digit,
/// or the underscore.
pub open spec fn is_word_char(c: char) -> bool {
    is_alphanum(c) || c == '_'
}

/// The end of the run of digits starting at `i`: the first position at or
/// after `i` holding no digit.
pub open spec fn run_end(s: Seq<char>, i: int) -> int
    recommends
        0 <= i,
    decreases s.len() - i,
{
    if i >= s.len() {
        s.len() as int
    } else if !is_digit(s[i]) {
        i
    } else {
        run_end(s, i + 1)
    }
}

proof fn lemma_run_end_at(s: Seq<char>, from: int, i: int)
    requires
        0 <= from <= i <= s.len(),
        forall|k: int| from <= k < i ==> is_digit(#[trigger] s[k]),
        i == s.len() || !is_digit(s[i]),
    ensures
        run_end(s, from) == i,
    decreases i - from,
{
    if from < i {
        lemma_run_end_at(s, from + 1, i);
    }
}

/// Whether the price pattern matches at `i`: a run of digits, then a
/// space, then a word character.
pub open spec fn price_match_at(s: Seq<char>, i: int) -> bool {
    &&& 0 <= i < s.len()
    &&& is_digit(s[i])
    &&& run_end(s, i) + 1 < s.len()
    &&& s[run_end(s, i)] == ' '
    &&& is_word_char(s[run_end(s, i) + 1])
}

/// The first position at or after `from` where the price pattern matches,
/// or the length of `s` when it never does.
pub open spec fn find_price(s: Seq<char>, from: int) -> int
    recommends
        0 <= from,
    decreases s.len() - from,
{
    if from >= s.len() {
        s.len() as int
    } else if price_match_at(s, from) {
        from
    } else {
        find_price(s, from + 1)
    }
}

proof fn lemma_find_price_at(s: Seq<char>, from: int, i: int)
    requires
        0 <= from <= i <= s.len(),
        forall|k: int| from <= k < i ==> !price_match_at(s, k),
        i == s.len() || price_match_at(s, i),
    ensures
        find_price(s, from) == i,
    decreases i - from,
{
    if from < i {
        lemma_find_price_at(s, from + 1, i);
    }
}

/// What reading a price off a fragment yields: the fragment is trimmed,
/// the first digit run followed by a space and a word character is
/// captured, and the captured digits are read as a number if they fit.
pub open spec fn parse_price_spec(s: Seq<char>) -> Option<i32> {
    let t = trimmed(s);
    let i = find_price(t, 0);
    if i == t.len() {
        None
    } else {
        let cap = t.subrange(i, run_end(t, i));
        if is_i32_str(cap) {
            Some(i32_str_val(cap) as i32)
        } else {
            None
        }
    }
}

/// Reads the ticket price off a price fragment.
pub fn parse_price(raw: &str) -> (r: Option<i32>)
    ensures
        r == parse_price_spec(raw@),
{
    let t = trim_str(raw);
    let n = t.unicode_len();
    let mut i: usize = 0;
    while i < n
        invariant
            0 <= i <= n,
            n == t@.len(),
            t@ == trimmed(raw@),
            forall|k: int| 0 <= k < i ==> !price_match_at(t@, k),
        decreases n - i,
    {
        let c = t.get_char(i);
        match char_digit(c) {
            None => {
                proof {
                    assert(!price_match_at(t@, i as int));
                }
                i += 1;
            },
            Some(_) => {
                let mut j: usize = i + 1;
                while j < n && t.get_char(j) <= '9' && t.get_char(j) >= '0'
                    invariant
                        i < j <= n,
                        n == t@.len(),
                        is_digit(t@[i as int]),
                        forall|k: int| i <= k < j ==> is_digit(#[trigger] t@[k]),
                    decreases n - j,
                {
                    j += 1;
                }
                proof {
                    lemma_run_end_at(t@, i as int, j as int);
                }
                let matched = if n - j > 1 {
                    t.get_char(j) == ' ' && alphanumeric_or_underscore(t.get_char(j + 1))
                } else {
                    false
                };
                if matched {
                    proof {
                        lemma_find_price_at(t@, 0, i as int);
                    }
                    let cap = t.substring_char(i, j);
                    proof {
                        assert(cap@ =~= t@.subrange(i as int, j as int));
                    }
                    return parse_i32(cap);
                } else {
                    proof {
                        assert forall|k: int| i <= k <= j implies !price_match_at(t@, k) by {
                            if k < j {
                                assert(forall|p: int| k <= p < j ==> is_digit(#[trigger] t@[p]));
                                lemma_run_end_at(t@, k, j as int);
                            }
                        }
                    }
                    i = j;
                    if i < n {
                        proof {
                            assert(!is_digit(t@[i as int]) || i == n);
                        }
                        i += 1;
                    }
                }
            },
        }
    }
    proof {
        lemma_find_price_at(t@, 0, n as int);
    }
    None
}

fn alphanumeric_or_underscore(c: char) -> (r: bool)
    ensures
        r == is_word_char(c),
{
    alphanumeric(c) || c == '_'
}

/// What `parse_time` accepts: exactly `HH:MM`, both slots decimal digits,
/// naming a time of day.
pub open spec fn parse_time_spec(s: Seq<char>) -> Option<Time> {
    if s.len() == 5 && s[2] == ':' && is_digit(s[0]) && is_digit(s[1]) && is_digit(s[3])
        && is_digit(s[4]) {
        let h = crate::numbers::digit_val(s[0]) * 10 + crate::numbers::digit_val(s[1]);
        let m = crate::numbers::digit_val(s[3]) * 10 + crate::numbers::digit_val(s[4]);
        if h < 24 && m < 60 {
            Some(Time { hour: h as u8, minute: m as u8 })
        } else {
            None
        }
    } else {
        None
    }
}

/// Parses a `HH:MM` show time; `None` on any other shape or on a time that
/// does not exist.
pub fn parse_time(s: &str) -> (r: Option<Time>)
    ensures
        r == parse_time_spec(s@),
{
    let n = s.unicode_len();
    if n != 5 {
        return None;
    }
    if s.get_char(2) != ':' {
        return None;
    }
    let h0 = char_digit(s.get_char(0));
    let h1 = char_digit(s.get_char(1));
    let m0 = char_digit(s.get_char(3));
    let m1 = char_digit(s.get_char(4));
    match (h0, h1, m0, m1) {
        (Some(h0), Some(h1), Some(m0), Some(m1)) => {
            let h: u8 = h0 * 10 + h1;
            let m: u8 = m0 * 10 + m1;
            if h < 24 && m < 60 {
                Some(Time { hour: h, minute: m })
            } else {
                None
            }
        },
        _ => None,
    }
}

/// The first position at or after `from` where the two-character segment
/// separator of an info line starts, or the length of `s` when it never
/// does.
pub open spec fn find_sep(s: Seq<char>, from: int) -> int
    recommends
        0 <= from,
    decreases s.len() - from,
{
    if from + 2 > s.len() {
        s.len() as int
    } else if s[from] == '/' && s[from + 1] == ' ' {
        from
    } else {
        find_sep(s, from + 1)
    }
}

proof fn lemma_find_sep_at(s: Seq<char>, from: int, i: int)
    requires
        0 <= from <= i <= s.len(),
        forall|k: int|
            from <= k < i ==> !(k + 2 <= s.len() && s[k] == '/' && #[trigger] s[k + 1] == ' '),
        i == s.len() || (i + 2 <= s.len() && s[i] == '/' && s[i + 1] == ' '),
    ensures
        find_sep(s, from) == i,
    decreases i - from,
{
    if from < i {
        lemma_find_sep_at(s, from + 1, i);
    }
}

/// An info line split at every `"/ "`, leftmost first.
pub open spec fn split_sep(s: Seq<char>) -> Seq<Seq<char>>
    decreases s.len(),
{
    let i = find_sep(s, 0);
    if 0 <= i && i + 2 <= s.len() {
        seq![s.take(i)] + split_sep(s.subrange(i + 2, s.len() as int))
    } else {
        seq![s]
    }
}

/// Splits an info line at every `"/ "`.
fn split_sep_str(s: &str) -> (r: Vec<String>)
    ensures
        r@.len() == split_sep(s@).len(),
        forall|k: int| 0 <= k < r@.len() ==> (#[trigger] r@[k])@ == split_sep(s@)[k],
    decreases s@.len(),
{
    let n = s.unicode_len();
    let mut i: usize = 0;
    while i < n && i + 1 < n && !(s.get_char(i) == '/' && s.get_char(i + 1) == ' ')
        invariant
            0 <= i <= n,
            n == s@.len(),
            forall|k: int|
                0 <= k < i ==> !(k + 2 <= s@.len() && s@[k] == '/' && #[trigger] s@[k + 1] == ' '),
        decreases n - i,
    {
        i += 1;
    }
    if i < n && i + 1 < n {
        proof {
            lemma_find_sep_at(s@, 0, i as int);
        }
        let head = String::from_str(s.substring_char(0, i));
        let rest = s.substring_char(i + 2, n);
        let mut r = split_sep_str(rest);
        r.insert(0, head);
        proof {
            assert(head@ =~= s@.take(i as int));
            assert(rest@ =~= s@.subrange(i as int + 2, n as int));
        }
        r
    } else {
        proof {
            lemma_find_sep_at(s@, 0, n as int);
        }
        let mut r: Vec<String> = Vec::new();
        r.push(String::from_str(s));
        r
    }
}

/// The digit characters of a fragment, in order, everything else dropped.
pub open spec fn ascii_digits_of(s: Seq<char>) -> Seq<char>
    decreases s.len(),
{
    if s.len() == 0 {
        Seq::<char>::empty()
    } else if is_digit(s.last()) {
        ascii_digits_of(s.drop_last()).push(s.last())
    } else {
        ascii_digits_of(s.drop_last())
    }
}

/// Reading further along a fragment never shrinks the value of its digits.
proof fn lemma_digits_val_monotone(s: Seq<char>, i: int, j: int)
    requires
        0 <= i <= j <= s.len(),
    ensures
        dec_val(ascii_digits_of(s.take(i))) <= dec_val(ascii_digits_of(s.take(j))),
    decreases j - i,
{
    if i < j {
        lemma_digits_val_monotone(s, i, j - 1);
        let t = s.take(j);
        assert(t.drop_last() =~= s.take(j - 1));
        if is_digit(t.last()) {
            crate::numbers::lemma_dec_val_push(ascii_digits_of(s.take(j - 1)), t.last());
            assert(dec_val(ascii_digits_of(s.take(j - 1))) * 10 >= dec_val(
                ascii_digits_of(s.take(j - 1)),
            )) by (nonlinear_arith)
                requires
                    dec_val(ascii_digits_of(s.take(j - 1))) >= 0,
            ;
        }
    } else {
        assert(s.take(i) == s.take(j));
    }
}

/// What the duration slot of an info line yields: every digit character of
/// the fragment, read as one number, if there is any and it fits.
pub open spec fn digits_value_spec(s: Seq<char>) -> Option<i32> {
    let ds = ascii_digits_of(s);
    if ds.len() > 0 && dec_val(ds) <= 0x7fff_ffff {
        Some(dec_val(ds) as i32)
    } else {
        None
    }
}

/// Reads the number formed by all digit characters of a fragment.
fn digits_value(s: &str) -> (r: Option<i32>)
    ensures
        r == digits_value_spec(s@),
{
    let n = s.unicode_len();
    let mut acc: u64 = 0;
    let mut any = false;
    let mut i: usize = 0;
    while i < n
        invariant
            0 <= i <= n,
            n == s@.len(),
            any == (ascii_digits_of(s@.take(i as int)).len() > 0),
            acc == dec_val(ascii_digits_of(s@.take(i as int))),
            acc <= 0x7fff_ffff,
        decreases n - i,
    {
        let c = s.get_char(i);
        proof {
            assert(s@.take(i + 1).drop_last() =~= s@.take(i as int));
            assert(s@.take(i + 1).last() == s@[i as int]);
            if is_digit(s@[i as int]) {
                crate::numbers::lemma_dec_val_push(ascii_digits_of(s@.take(i as int)), s@[i as int]);
            }
        }
        if '0' <= c && c <= '9' {
            let d = (c as u32 - '0' as u32) as u64;
            if acc > 214748364 || (acc == 214748364 && d > 7) {
                proof {
                    assert(dec_val(ascii_digits_of(s@.take(i + 1))) > 0x7fff_ffff)
                        by (nonlinear_arith)
                        requires
                            dec_val(ascii_digits_of(s@.take(i + 1))) == acc * 10 + d,
                            acc > 214748364 || (acc == 214748364 && d > 7),
                            acc >= 0,
                            d >= 0,
                    ;
                    lemma_digits_val_monotone(s@, i + 1, n as int);
                    assert(s@.take(n as int) =~= s@);
                }
                return None;
            }
            acc = acc * 10 + d;
            any = true;
        }
        i += 1;
    }
    proof {
        assert(s@.take(n as int) =~= s@);
    }
    if any {
        Some(acc as i32)
    } else {
        None
    }
}

/// The first position at or after `from` holding a digit, or the length of
/// `s` when there is none.
pub open spec fn find_digit(s: Seq<char>, from: int) -> int
    recommends
        0 <= from,
    decreases s.len() - from,
{
    if from >= s.len() {
        s.len() as int
    } else if is_digit(s[from]) {
        from
    } else {
        find_digit(s, from + 1)
    }
}

proof fn lemma_find_digit_at(s: Seq<char>, from: int, i: int)
    requires
        0 <= from <= i <= s.len(),
        forall|k: int| from <= k < i ==> !is_digit(#[trigger] s[k]),
        i == s.len() || is_digit(s[i]),
    ensures
        find_digit(s, from) == i,
    decreases i - from,
{
    if from < i {
        lemma_find_digit_at(s, from + 1, i);
    }
}

/// What the age slot of an info line yields: the first run of digits in
/// the trimmed fragment, read as a number, if there is one and it fits.
pub open spec fn first_number_spec(s: Seq<char>) -> Option<i32> {
    let t = trimmed(s);
    let i = find_digit(t, 0);
    if i == t.len() {
        None
    } else {
        let cap = t.subrange(i, run_end(t, i));
        if is_i32_str(cap) {
            Some(i32_str_val(cap) as i32)
        } else {
            None
        }
    }
}

/// Reads the first run of digits off a trimmed fragment.
fn first_number(raw: &str) -> (r: Option<i32>)
    ensures
        r == first_number_spec(raw@),
{
    let t = trim_str(raw);
    let n = t.unicode_len();
    let mut i: usize = 0;
    while i < n && !('0' <= t.get_char(i) && t.get_char(i) <= '9')
        invariant
            0 <= i <= n,
            n == t@.len(),
            t@ == trimmed(raw@),
            forall|k: int| 0 <= k < i ==> !is_digit(#[trigger] t@[k]),
        decreases n - i,
    {
        i += 1;
    }
    proof {
        lemma_find_digit_at(t@, 0, i as int);
    }
    if i == n {
        return None;
    }
    let mut j: usize = i + 1;
    while j < n && '0' <= t.get_char(j) && t.get_char(j) <= '9'
        invariant
            i < j <= n,
            n == t@.len(),
            forall|k: int| i <= k < j ==> is_digit(#[trigger] t@[k]),
        decreases n - j,
    {
        j += 1;
    }
    proof {
        lemma_run_end_at(t@, i as int, j as int);
    }
    let cap = t.substring_char(i, j);
    proof {
        assert(cap@ =~= t@.subrange(i as int, j as int));
    }
    parse_i32(cap)
}

/// What the year slot of an info line yields once its gate is passed.
pub open spec fn info_year_spec(seg: Seq<char>) -> Option<i32> {
    let t = trimmed(seg);
    if is_i32_str(t) {
        Some(i32_str_val(t) as i32)
    } else {
        None
    }
}

impl MoskinoMovie {
    /// Fills country, year, duration and age from a movie's info line of
    /// the shape `"country/ year/ duration/ age"`. Each slot is left as it
    /// was when it is blank or does not parse; the line must have at least
    /// the four slots.
    pub fn parse_info(&mut self, raw: String)
        requires
            split_sep(raw@).len() >= 4,
        ensures
            trimmed(split_sep(raw@)[0]).len() > 0 ==> (final(self).country matches Some(c) && c@
                == trimmed(split_sep(raw@)[0])),
            trimmed(split_sep(raw@)[0]).len() == 0 ==> final(self).country == old(self).country,
            trimmed(split_sep(raw@)[1]).len() > 0 ==> (info_year_spec(split_sep(raw@)[1]) matches
                Some(y) ==> final(self).year == Some(y)),
            !(trimmed(split_sep(raw@)[1]).len() > 0 && info_year_spec(split_sep(raw@)[1]) is Some)
                ==> final(self).year == old(self).year,
            trimmed(split_sep(raw@)[2]).len() > 0 ==> (digits_value_spec(split_sep(raw@)[2])
                matches Some(d) ==> final(self).duration == Some(d)),
            !(trimmed(split_sep(raw@)[2]).len() > 0 && digits_value_spec(split_sep(raw@)[2])
                is Some) ==> final(self).duration == old(self).duration,
            trimmed(split_sep(raw@)[3]).len() > 0 ==> (first_number_spec(split_sep(raw@)[3])
                matches Some(a) ==> final(self).age == Some(a)),
            !(trimmed(split_sep(raw@)[3]).len() > 0 && first_number_spec(split_sep(raw@)[3])
                is Some) ==> final(self).age == old(self).age,
            final(self).title == old(self).title,
            final(self).genre == old(self).genre,
            final(self).director == old(self).director,
            final(self).description == old(self).description,
            final(self).href_kinopoisk == old(self).href_kinopoisk,
            final(self).href_moskino == old(self).href_moskino,
            final(self).tagline == old(self).tagline,
    {
        let splitted = split_sep_str(raw.as_str());
        let country = trim_str(splitted[0].as_str());
        if country.unicode_len() > 0 {
            self.country = Some(String::from_str(country));
        }
        let year = trim_str(splitted[1].as_str());
        if year.unicode_len() > 0 {
            match parse_i32(year) {
                Some(y) => {
                    self.year = Some(y);
                },
                None => {},
            }
        }
        let duration = trim_str(splitted[2].as_str());
        if duration.unicode_len() > 0 {
            match digits_value(splitted[2].as_str()) {
                Some(d) => {
                    self.duration = Some(d);
                },
                None => {},
            }
        }
        let age = trim_str(splitted[3].as_str());
        if age.unicode_len() > 0 {
            match first_number(splitted[3].as_str()) {
                Some(a) => {
                    self.age = Some(a);
                },
                None => {},
            }
        }
    }
}

/// One session block scraped off the schedule page.
#[derive(Default, Debug, Clone)]
pub struct MoskinoSession {
    pub time: Time,
    pub price: i32,
}

impl MoskinoSession {
    /// Builds a session from the time and price fragments of one block:
    /// both fragments must be present and the time must parse; a price
    /// that does not parse counts as a free session.
    pub fn from_node(time: Option<String>, price: Option<String>) -> (r: Result<
        MoskinoSession,
        ScrapeError,
    >)
        ensures
            time is None || price is None ==> r is Err,
            time matches Some(t) ==> (price matches Some(p) ==> (match parse_time_spec(t@) {
                None => r is Err,
                Some(tt) => r == Ok::<MoskinoSession, ScrapeError>(
                    MoskinoSession {
                        time: tt,
                        price: match parse_price_spec(p@) {
                            Some(v) => v,
                            None => 0,
                        },
                    },
                ),
            })),
    {
        match (time, price) {
            (Some(time), Some(price)) => {
                match parse_time(time.as_str()) {
                    Some(t) => {
                        let p = match parse_price(price.as_str()) {
                            Some(v) => v,
                            None => 0,
                        };
                        Ok(MoskinoSession { time: t, price: p })
                    },
                    None => Err(ScrapeError),
                }
            },
            _ => Err(ScrapeError),
        }
    }
}

/// One show time of a schedule block.
#[derive(Default, Debug, Clone)]
pub struct MoskinoShowTime {
    pub time: Time,
    pub price: i32,
}

impl MoskinoShowTime {
    /// Fills this show time from the time and price fragments of one
    /// block, leaving it untouched when they do not parse.
    pub fn parse(&mut self, time: Option<String>, price: Option<String>) -> (r: Result<
        (),
        ScrapeError,
    >)
        ensures
            time is None || price is None ==> r is Err && *final(self) == *old(self),
            time matches Some(t) ==> (price matches Some(p) ==> (match parse_time_spec(t@) {
                None => r is Err && *final(self) == *old(self),
                Some(tt) => r is Ok && *final(self) == (MoskinoShowTime {
                    time: tt,
                    price: match parse_price_spec(p@) {
                        Some(v) => v,
                        None => 0,
                    },
                }),
            })),
    {
        match (time, price) {
            (Some(time), Some(price)) => {
                match parse_time(time.as_str()) {
                    Some(t) => {
                        self.time = t;
                        self.price = match parse_price(price.as_str()) {
                            Some(v) => v,
                            None => 0,
                        };
                        Ok(())
                    },
                    None => Err(ScrapeError),
                }
            },
            _ => Err(ScrapeError),
        }
    }
}

} // verus!
