//! Calendar dates and clock times as plain values.
//!
//! The wire tokens carry dates in a fixed `YYYY.MM.DD` shape; sessions carry
//! a `HH:MM` show time. Both formats are part of this crate's own wire
//! grammar, so formatting and parsing are implemented and verified here.
//! Only "what time is it now" comes from outside, through trusted wrappers
//! around chrono.

use vstd::prelude::*;
use crate::numbers::{all_digits, dec_digits, dec_int, dec_val, digit_val, i32_to_string,
    is_digit, lemma_dec_digits_val, u64_to_string};

verus! {

/// A calendar date, held as plain year, month and day numbers.
#[derive(Debug, Clone, Copy, PartialEq, Eq, Structural)]
pub struct Date {
    pub year: i32,
    pub month: u8,
    pub day: u8,
}

/// A clock time of day, to the minute.
#[derive(Debug, Clone, Copy, PartialEq, Eq, Structural, Default)]
pub struct Time {
    pub hour: u8,
    pub minute: u8,
}

pub open spec fn is_leap_year(y: int) -> bool {
    (y % 4 == 0 && y % 100 != 0) || y % 400 == 0
}

pub open spec fn days_in_month(y: int, m: int) -> int {
    if m == 2 {
        if is_leap_year(y) {
            29
        } else {
            28
        }
    } else if m == 4 || m == 6 || m == 9 || m == 11 {
        30
    } else {
        31
    }
}

/// A well-formed date: the month and day exist in the calendar, and the year
/// stays inside the range chrono's calendar supports.
pub open spec fn valid_date(d: Date) -> bool {
    &&& -262143 <= d.year <= 262142
    &&& 1 <= d.month <= 12
    &&& 1 <= d.day <= days_in_month(d.year as int, d.month as int)
}

pub open spec fn valid_time(t: Time) -> bool {
    t.hour < 24 && t.minute < 60
}

/// Dates whose year fits the four-digit slot of the wire format.
pub open spec fn date_formattable(d: Date) -> bool {
    0 <= d.year <= 9999
}

/// Chronological order on dates; for well-formed dates this is the order
/// chrono gives them.
pub open spec fn date_lt(a: Date, b: Date) -> bool {
    ||| a.year < b.year
    ||| (a.year == b.year && a.month < b.month)
    ||| (a.year == b.year && a.month == b.month && a.day < b.day)
}

/// A number in exactly two digits, zero padded.
pub open spec fn pad2(n: nat) -> Seq<char> {
    if n < 10 {
        seq!['0'] + dec_digits(n)
    } else {
        dec_digits(n)
    }
}

/// A number in exactly four digits, zero padded.
pub open spec fn pad4(n: nat) -> Seq<char> {
    if n < 10 {
        seq!['0', '0', '0'] + dec_digits(n)
    } else if n < 100 {
        seq!['0', '0'] + dec_digits(n)
    } else if n < 1000 {
        seq!['0'] + dec_digits(n)
    } else {
        dec_digits(n)
    }
}

/// The year slot of a wire date: four digits zero padded, or the plain
/// decimal for the years outside the four-digit space.
pub open spec fn year_chars(y: int) -> Seq<char> {
    if 0 <= y < 10000 {
        pad4(y as nat)
    } else {
        dec_int(y)
    }
}

/// The `YYYY.MM.DD` shape a date takes inside a wire token.
pub open spec fn date_token(d: Date) -> Seq<char> {
    year_chars(d.year as int) + seq!['.'] + pad2(d.month as nat) + seq!['.'] + pad2(d.day as nat)
}

/// The `YYYY-MM-DD` shape a date takes in a schedule-page address.
pub open spec fn date_dash_token(d: Date) -> Seq<char> {
    year_chars(d.year as int) + seq!['-'] + pad2(d.month as nat) + seq!['-'] + pad2(d.day as nat)
}

/// The `HH:MM` shape of a show time.
pub open spec fn time_token(t: Time) -> Seq<char> {
    pad2(t.hour as nat) + seq![':'] + pad2(t.minute as nat)
}

pub fn days_in_month_of(year: i32, month: u8) -> (r: u8)
    requires
        1 <= month <= 12,
    ensures
        r as int == days_in_month(year as int, month as int),
{
    if month == 2 {
        if (year % 4 == 0 && year % 100 != 0) || year % 400 == 0 {
            29
        } else {
            28
        }
    } else if month == 4 || month == 6 || month == 9 || month == 11 {
        30
    } else {
        31
    }
}

/// Is `a` strictly before `b` in the calendar?
pub fn date_before(a: &Date, b: &Date) -> (r: bool)
    ensures
        r == date_lt(*a, *b),
{
    a.year < b.year || (a.year == b.year && (a.month < b.month || (a.month == b.month
        && a.day < b.day)))
}

/// Prints a number below one hundred in exactly two digits.
pub fn two_digits(n: u8) -> (r: String)
    requires
        n < 100,
    ensures
        r@ == pad2(n as nat),
{
    if n < 10 {
        let mut s = String::from_str("0");
        s.append(u64_to_string(n as u64).as_str());
        proof {
            reveal_strlit("0");
            assert(s@ =~= pad2(n as nat));
        }
        s
    } else {
        u64_to_string(n as u64)
    }
}

/// Prints a number below ten thousand in exactly four digits.
pub fn four_digits(n: u16) -> (r: String)
    requires
        n < 10000,
    ensures
        r@ == pad4(n as nat),
{
    let digits = u64_to_string(n as u64);
    let mut s = if n < 10 {
        String::from_str("000")
    } else if n < 100 {
        String::from_str("00")
    } else if n < 1000 {
        String::from_str("0")
    } else {
        String::new()
    };
    s.append(digits.as_str());
    proof {
        reveal_strlit("000");
        reveal_strlit("00");
        reveal_strlit("0");
        assert(s@ =~= pad4(n as nat));
    }
    s
}

/// Prints a date in the `YYYY.MM.DD` wire shape.
pub fn date_to_string(d: &Date) -> (r: String)
    requires
        valid_date(*d),
    ensures
        r@ == date_token(*d),
{
    let mut s = if 0 <= d.year && d.year < 10000 {
        four_digits(d.year as u16)
    } else {
        i32_to_string(d.year)
    };
    s.append(".");
    s.append(two_digits(d.month).as_str());
    s.append(".");
    s.append(two_digits(d.day).as_str());
    proof {
        reveal_strlit(".");
        assert(s@ =~= date_token(*d));
    }
    s
}

/// Prints a date in the `YYYY-MM-DD` address shape.
pub fn date_to_dash_string(d: &Date) -> (r: String)
    requires
        valid_date(*d),
    ensures
        r@ == date_dash_token(*d),
{
    let mut s = if 0 <= d.year && d.year < 10000 {
        four_digits(d.year as u16)
    } else {
        i32_to_string(d.year)
    };
    s.append("-");
    s.append(two_digits(d.month).as_str());
    s.append("-");
    s.append(two_digits(d.day).as_str());
    proof {
        reveal_strlit("-");
        assert(s@ =~= date_dash_token(*d));
    }
    s
}

/// Prints a time in the `HH:MM` shape.
pub fn time_to_string(t: &Time) -> (r: String)
    requires
        valid_time(*t),
    ensures
        r@ == time_token(*t),
{
    let mut s = two_digits(t.hour);
    s.append(":");
    s.append(two_digits(t.minute).as_str());
    proof {
        reveal_strlit(":");
        assert(s@ =~= time_token(*t));
    }
    s
}

/// What `parse_date` accepts: exactly `YYYY.MM.DD`, all slots decimal digits,
/// naming a day that exists in the calendar.
pub open spec fn parse_date_spec(s: Seq<char>) -> Option<Date> {
    if s.len() == 10 && s[4] == '.' && s[7] == '.' && all_digits(s.take(4))
        && all_digits(s.subrange(5, 7)) && all_digits(s.subrange(8, 10)) {
        let y = dec_val(s.take(4)) as int;
        let m = dec_val(s.subrange(5, 7)) as int;
        let d = dec_val(s.subrange(8, 10)) as int;
        if 1 <= m <= 12 && 1 <= d <= days_in_month(y, m) {
            Some(Date { year: y as i32, month: m as u8, day: d as u8 })
        } else {
            None
        }
    } else {
        None
    }
}

proof fn lemma_dec_val_unfold(s: Seq<char>)
    requires
        s.len() >= 1,
    ensures
        dec_val(s) == dec_val(s.take(s.len() - 1)) * 10 + digit_val(s[s.len() - 1]),
{
    assert(s.drop_last() =~= s.take(s.len() - 1));
}

/// The value of a fixed run of two digit characters.
proof fn lemma_dec_val2(s: Seq<char>)
    requires
        s.len() == 2,
    ensures
        dec_val(s) == digit_val(s[0]) * 10 + digit_val(s[1]),
{
    lemma_dec_val_unfold(s);
    lemma_dec_val_unfold(s.take(1));
    assert(s.take(1).take(0) =~= Seq::<char>::empty());
}

/// The value of a fixed run of four digit characters.
proof fn lemma_dec_val4(s: Seq<char>)
    requires
        s.len() == 4,
    ensures
        dec_val(s) == ((digit_val(s[0]) * 10 + digit_val(s[1])) * 10 + digit_val(s[2])) * 10
            + digit_val(s[3]),
{
    lemma_dec_val_unfold(s);
    lemma_dec_val_unfold(s.take(3));
    assert(s.take(3).take(2) =~= s.take(2));
    lemma_dec_val2(s.take(2));
    assert(s.take(3)[0] == s[0] && s.take(3)[1] == s[1] && s.take(3)[2] == s[2]);
    assert(s.take(2)[0] == s[0] && s.take(2)[1] == s[1]);
}

pub(crate) fn char_digit(c: char) -> (r: Option<u8>)
    ensures
        is_digit(c) ==> r == Some((digit_val(c)) as u8),
        !is_digit(c) ==> r is None,
{
    if '0' <= c && c <= '9' {
        Some(((c as u32) - ('0' as u32)) as u8)
    } else {
        None
    }
}

/// Parses a `YYYY.MM.DD` wire date; `None` on any other shape or on a day
/// that does not exist in the calendar.
pub fn parse_date(s: &str) -> (r: Option<Date>)
    ensures
        r == parse_date_spec(s@),
{
    let n = s.unicode_len();
    if n != 10 {
        return None;
    }
    if s.get_char(4) != '.' || s.get_char(7) != '.' {
        return None;
    }
    let d0 = char_digit(s.get_char(0));
    let d1 = char_digit(s.get_char(1));
    let d2 = char_digit(s.get_char(2));
    let d3 = char_digit(s.get_char(3));
    let m0 = char_digit(s.get_char(5));
    let m1 = char_digit(s.get_char(6));
    let a0 = char_digit(s.get_char(8));
    let a1 = char_digit(s.get_char(9));
    match (d0, d1, d2, d3, m0, m1, a0, a1) {
        (
            Some(d0),
            Some(d1),
            Some(d2),
            Some(d3),
            Some(m0),
            Some(m1),
            Some(a0),
            Some(a1),
        ) => {
            let y: u16 = ((d0 as u16 * 10 + d1 as u16) * 10 + d2 as u16) * 10 + d3 as u16;
            let m: u8 = m0 * 10 + m1;
            let d: u8 = a0 * 10 + a1;
            proof {
                lemma_dec_val4(s@.take(4));
                lemma_dec_val2(s@.subrange(5, 7));
                lemma_dec_val2(s@.subrange(8, 10));
            }
            if 1 <= m && m <= 12 {
                let dim = days_in_month_of(y as i32, m);
                if 1 <= d && d <= dim {
                    Some(Date { year: y as i32, month: m, day: d })
                } else {
                    None
                }
            } else {
                None
            }
        },
        _ => {
            proof {
                if all_digits(s@.take(4)) && all_digits(s@.subrange(5, 7)) && all_digits(
                    s@.subrange(8, 10),
                ) {
                    assert(is_digit(s@[0]) && is_digit(s@[1]) && is_digit(s@[2]) && is_digit(
                        s@[3],
                    )) by {
                        assert(s@.take(4)[0] == s@[0] && s@.take(4)[1] == s@[1] && s@.take(4)[2]
                            == s@[2] && s@.take(4)[3] == s@[3]);
                    }
                    assert(is_digit(s@[5]) && is_digit(s@[6])) by {
                        assert(s@.subrange(5, 7)[0] == s@[5] && s@.subrange(5, 7)[1] == s@[6]);
                    }
                    assert(is_digit(s@[8]) && is_digit(s@[9])) by {
                        assert(s@.subrange(8, 10)[0] == s@[8] && s@.subrange(8, 10)[1] == s@[9]);
                    }
                }
            }
            None
        },
    }
}

/// Leading zeros do not change the value of a digit string.
proof fn lemma_dec_val_zero_prefix(s: Seq<char>)
    ensures
        dec_val(seq!['0'] + s) == dec_val(s),
    decreases s.len(),
{
    if s.len() == 0 {
        assert(seq!['0'] + s =~= seq!['0']);
        assert(dec_val(seq!['0']) == dec_val(Seq::<char>::empty()) * 10 + digit_val('0')) by {
            assert(seq!['0'].drop_last() =~= Seq::<char>::empty());
        }
    } else {
        let t = seq!['0'] + s;
        assert(t.drop_last() =~= seq!['0'] + s.drop_last());
        lemma_dec_val_zero_prefix(s.drop_last());
        assert(t.last() == s.last());
    }
}

proof fn lemma_pad2_val(n: nat)
    requires
        n < 100,
    ensures
        pad2(n).len() == 2,
        all_digits(pad2(n)),
        dec_val(pad2(n)) == n,
{
    lemma_dec_digits_val(n);
    lemma_dec_digits_len(n);
    if n < 10 {
        lemma_dec_val_zero_prefix(dec_digits(n));
    }
}

proof fn lemma_pad4_val(n: nat)
    requires
        n < 10000,
    ensures
        pad4(n).len() == 4,
        all_digits(pad4(n)),
        dec_val(pad4(n)) == n,
{
    lemma_dec_digits_val(n);
    lemma_dec_digits_len(n);
    if n < 10 {
        lemma_dec_val_zero_prefix(dec_digits(n));
        lemma_dec_val_zero_prefix(seq!['0'] + dec_digits(n));
        lemma_dec_val_zero_prefix(seq!['0'] + (seq!['0'] + dec_digits(n)));
        assert(seq!['0', '0', '0'] + dec_digits(n) =~= seq!['0'] + (seq!['0'] + (seq!['0']
            + dec_digits(n))));
    } else if n < 100 {
        lemma_dec_val_zero_prefix(dec_digits(n));
        lemma_dec_val_zero_prefix(seq!['0'] + dec_digits(n));
        assert(seq!['0', '0'] + dec_digits(n) =~= seq!['0'] + (seq!['0'] + dec_digits(n)));
    } else if n < 1000 {
        lemma_dec_val_zero_prefix(dec_digits(n));
    }
}

/// How many digits a small number prints to.
proof fn lemma_dec_digits_len(n: nat)
    ensures
        n < 10 ==> dec_digits(n).len() == 1,
        10 <= n < 100 ==> dec_digits(n).len() == 2,
        100 <= n < 1000 ==> dec_digits(n).len() == 3,
        1000 <= n < 10000 ==> dec_digits(n).len() == 4,
    decreases n,
{
    if n >= 10 {
        lemma_dec_digits_len(n / 10);
    }
}

/// Parsing a printed date gives the date back: the wire shape of a date is
/// unambiguous.
pub proof fn lemma_parse_date_token(d: Date)
    requires
        valid_date(d),
        date_formattable(d),
    ensures
        parse_date_spec(date_token(d)) == Some(d),
{
    let s = date_token(d);
    lemma_pad4_val(d.year as nat);
    lemma_pad2_val(d.month as nat);
    lemma_pad2_val(d.day as nat);
    assert(s.len() == 10);
    assert(s.take(4) =~= pad4(d.year as nat));
    assert(s[4] == '.');
    assert(s.subrange(5, 7) =~= pad2(d.month as nat));
    assert(s[7] == '.');
    assert(s.subrange(8, 10) =~= pad2(d.day as nat));
}

/// Which show times still count for a query date: from midnight when the
/// date lies ahead of the current day, from the current time otherwise.
pub fn time_determine(date: &Date, now_date: &Date, now_time: Time) -> (r: Time)
    ensures
        date_lt(*now_date, *date) ==> r == (Time { hour: 0, minute: 0 }),
        !date_lt(*now_date, *date) ==> r == now_time,
{
    if date_before(now_date, date) {
        Time { hour: 0, minute: 0 }
    } else {
        now_time
    }
}

/// Which day a schedule is asked for.
#[derive(Debug, Clone, Copy, PartialEq, Eq, Structural)]
pub enum ArgDay {
    Today,
    Tommorow,
    Aftertommorow,
}

impl ArgDay {
    /// Relies on chrono's `Utc::now` for the current moment, shifted three
    /// hours ahead of UTC and by the chosen number of days. chrono panics
    /// rather than return a date outside its supported calendar range, and
    /// `Utc::now` starts from the Unix epoch, so every returned date is
    /// well formed and its year lies in `1970..=262142`.
    #[verifier::external_body]
    pub fn get_date(arg: ArgDay) -> (r: Date)
        ensures
            valid_date(r),
            1970 <= r.year,
    {
        let days: i64 = match arg {
            ArgDay::Today => 0,
            ArgDay::Tommorow => 1,
            ArgDay::Aftertommorow => 2,
        };
        let d = (chrono::Utc::now() + chrono::Duration::hours(3) + chrono::Duration::days(days))
            .date_naive();
        Date {
            year: chrono::Datelike::year(&d),
            month: chrono::Datelike::month(&d) as u8,
            day: chrono::Datelike::day(&d) as u8,
        }
    }
}

/// The text chrono's Russian locale prints for a date under `%A • %d.%m`
/// (weekday name, a dot, day and month); it depends on the calendar date
/// alone.
pub uninterp spec fn ru_day_label(year: int, month: int, day: int) -> Seq<char>;

/// Relies on chrono's `format_localized` with the Russian locale and the
/// `%A • %d.%m` pattern: the label of a day-picking button.
#[verifier::external_body]
pub fn format_ru_day(d: &Date) -> (r: String)
    requires
        valid_date(*d),
    ensures
        r@ == ru_day_label(d.year as int, d.month as int, d.day as int),
{
    let nd = chrono::NaiveDate::from_ymd_opt(d.year, d.month as u32, d.day as u32).unwrap();
    format!("{}", nd.format_localized("%A • %d.%m", chrono::Locale::ru_RU))
}

/// The text chrono's Russian locale prints for a date under `%d.%m (%A)`
/// (day and month, then the weekday name in brackets); it depends on the
/// calendar date alone.
pub uninterp spec fn ru_date_label(year: int, month: int, day: int) -> Seq<char>;

/// Relies on chrono's `format_localized` with the Russian locale and the
/// `%d.%m (%A)` pattern: the date part of a list headline. A triple that
/// names no calendar day falls back to chrono's earliest date, so the text
/// is a function of the triple alone.
#[verifier::external_body]
pub fn format_ru_date(d: &Date) -> (r: String)
    ensures
        r@ == ru_date_label(d.year as int, d.month as int, d.day as int),
{
    let nd = chrono::NaiveDate::from_ymd_opt(d.year, d.month as u32, d.day as u32).unwrap_or(
        chrono::NaiveDate::MIN,
    );
    format!("{}", nd.format_localized("%d.%m (%A)", chrono::Locale::ru_RU))
}

/// Relies on chrono's `Utc::now` for the current moment, shifted three hours
/// ahead of UTC, split into its date and its time of day. As with
/// [`ArgDay::get_date`], chrono panics rather than hand back an out-of-range
/// moment, so the result is always well formed.
#[verifier::external_body]
pub fn datetime_utc3() -> (r: (Date, Time))
    ensures
        valid_date(r.0),
        1970 <= r.0.year,
        valid_time(r.1),
{
    let d = chrono::Utc::now() + chrono::Duration::hours(3);
    let nd = d.date_naive();
    let nt = d.time();
    (
        Date {
            year: chrono::Datelike::year(&nd),
            month: chrono::Datelike::month(&nd) as u8,
            day: chrono::Datelike::day(&nd) as u8,
        },
        Time { hour: chrono::Timelike::hour(&nt) as u8, minute: chrono::Timelike::minute(&nt) as u8 },
    )
}

} // verus!
