//! Decimal formatting and parsing of the integers that ride inside the wire
//! tokens: menu codes, control codes, item ids, page numbers and years.

use vstd::prelude::*;

verus! {

/// The character for a single decimal digit value.
pub open spec fn digit_char(d: nat) -> char {
    if d == 0 {
        '0'
    } else if d == 1 {
        '1'
    } else if d == 2 {
        '2'
    } else if d == 3 {
        '3'
    } else if d == 4 {
        '4'
    } else if d == 5 {
        '5'
    } else if d == 6 {
        '6'
    } else if d == 7 {
        '7'
    } else if d == 8 {
        '8'
    } else {
        '9'
    }
}

/// Decimal representation of a non-negative integer, most significant digit
/// first, with no leading zeros (a lone `0` for zero).
pub open spec fn dec_digits(n: nat) -> Seq<char>
    decreases n,
{
    if n < 10 {
        seq![digit_char(n)]
    } else {
        dec_digits(n / 10).push(digit_char(n % 10))
    }
}

/// Decimal representation of a possibly negative integer, as `format!("{}")`
/// of Rust prints it.
pub open spec fn dec_int(n: int) -> Seq<char> {
    if n < 0 {
        seq!['-'] + dec_digits((-n) as nat)
    } else {
        dec_digits(n as nat)
    }
}

pub open spec fn is_digit(c: char) -> bool {
    '0' <= c <= '9'
}

pub open spec fn digit_val(c: char) -> nat {
    (c as nat - '0' as nat) as nat
}

pub open spec fn all_digits(s: Seq<char>) -> bool {
    forall|i: int| 0 <= i < s.len() ==> is_digit(#[trigger] s[i])
}

/// Value of a sequence of decimal digits, most significant first.
pub open spec fn dec_val(s: Seq<char>) -> nat
    decreases s.len(),
{
    if s.len() == 0 {
        0
    } else {
        dec_val(s.drop_last()) * 10 + digit_val(s.last())
    }
}

/// Does `s` parse as an `i32` the way `str::parse::<i32>` accepts it: an
/// optional `+` or `-` sign, then one or more decimal digits, value in range.
pub open spec fn is_i32_str(s: Seq<char>) -> bool {
    let ds = i32_str_digits(s);
    &&& ds.len() > 0
    &&& all_digits(ds)
    &&& if i32_str_negative(s) {
        dec_val(ds) <= 0x8000_0000
    } else {
        dec_val(ds) <= 0x7fff_ffff
    }
}

pub open spec fn i32_str_negative(s: Seq<char>) -> bool {
    s.len() > 0 && s[0] == '-'
}

pub open spec fn i32_str_digits(s: Seq<char>) -> Seq<char> {
    if s.len() > 0 && (s[0] == '-' || s[0] == '+') {
        s.drop_first()
    } else {
        s
    }
}

/// The value `str::parse::<i32>` would return on a string it accepts.
pub open spec fn i32_str_val(s: Seq<char>) -> int {
    if i32_str_negative(s) {
        -(dec_val(i32_str_digits(s)) as int)
    } else {
        dec_val(i32_str_digits(s)) as int
    }
}

/// One decimal digit as a string.
fn digit_str(d: u8) -> (r: &'static str)
    requires
        d < 10,
    ensures
        r@ == seq![digit_char(d as nat)],
{
    proof {
        reveal_strlit("0");
        reveal_strlit("1");
        reveal_strlit("2");
        reveal_strlit("3");
        reveal_strlit("4");
        reveal_strlit("5");
        reveal_strlit("6");
        reveal_strlit("7");
        reveal_strlit("8");
        reveal_strlit("9");
    }
    match d {
        0 => "0",
        1 => "1",
        2 => "2",
        3 => "3",
        4 => "4",
        5 => "5",
        6 => "6",
        7 => "7",
        8 => "8",
        _ => "9",
    }
}

/// Prints a non-negative integer in decimal.
pub fn u64_to_string(n: u64) -> (r: String)
    ensures
        r@ == dec_digits(n as nat),
    decreases n,
{
    if n < 10 {
        digit_str(n as u8).to_owned()
    } else {
        let mut s = u64_to_string(n / 10);
        s.append(digit_str((n % 10) as u8));
        s
    }
}

/// Prints an integer in decimal, with a leading `-` when negative.
pub fn i64_to_string(n: i64) -> (r: String)
    ensures
        r@ == dec_int(n as int),
{
    if n >= 0 {
        u64_to_string(n as u64)
    } else {
        let mag: u64 = if n == i64::MIN {
            9223372036854775808u64
        } else {
            (-n) as u64
        };
        let mut s = String::new();
        s.append("-");
        s.append(u64_to_string(mag).as_str());
        proof {
            reveal_strlit("-");
            assert(s@ =~= seq!['-'] + dec_digits((-(n as int)) as nat));
        }
        s
    }
}

/// Prints an `i32` in decimal.
pub fn i32_to_string(n: i32) -> (r: String)
    ensures
        r@ == dec_int(n as int),
{
    i64_to_string(n as i64)
}

/// Appending a digit to a digit string multiplies its value by ten.
pub(crate) proof fn lemma_dec_val_push(t: Seq<char>, c: char)
    ensures
        dec_val(t.push(c)) == dec_val(t) * 10 + digit_val(c),
{
    assert(t.push(c).drop_last() =~= t);
    assert(t.push(c).last() == c);
}

/// A digit string is worth at least as much as any of its prefixes.
proof fn lemma_dec_val_prefix_le(t: Seq<char>, p: int)
    requires
        0 <= p <= t.len(),
    ensures
        dec_val(t) >= dec_val(t.take(p)),
    decreases t.len() - p,
{
    if p < t.len() {
        let u = t.take(p + 1);
        assert(u.drop_last() =~= t.take(p));
        assert(dec_val(u) == dec_val(t.take(p)) * 10 + digit_val(u.last()));
        assert(dec_val(t.take(p)) * 10 >= dec_val(t.take(p))) by (nonlinear_arith)
            requires
                dec_val(t.take(p)) >= 0,
        ;
        lemma_dec_val_prefix_le(t, p + 1);
        assert(t.take(p + 1) == u);
    } else {
        assert(t.take(p) =~= t);
    }
}

/// The value of the decimal representation is the number itself.
pub proof fn lemma_dec_digits_val(n: nat)
    ensures
        dec_val(dec_digits(n)) == n,
        all_digits(dec_digits(n)),
        dec_digits(n).len() >= 1,
        dec_digits(n)[0] != '+' && dec_digits(n)[0] != '-',
    decreases n,
{
    if n < 10 {
        let s = seq![digit_char(n)];
        assert(s.drop_last() =~= Seq::<char>::empty());
        assert(dec_val(s) == dec_val(s.drop_last()) * 10 + digit_val(s.last()));
        assert(digit_val(digit_char(n)) == n);
    } else {
        lemma_dec_digits_val(n / 10);
        lemma_dec_val_push(dec_digits(n / 10), digit_char(n % 10));
        assert(n / 10 * 10 + n % 10 == n) by (nonlinear_arith)
            requires
                n >= 10,
        ;
    }
}

/// Parses a decimal integer exactly as `str::parse::<i32>` accepts one: an
/// optional sign, then only digits, value within `i32` range.
pub fn parse_i32(s: &str) -> (r: Option<i32>)
    ensures
        r matches Some(v) ==> is_i32_str(s@) && v == i32_str_val(s@),
        r is None ==> !is_i32_str(s@),
{
    let n = s.unicode_len();
    if n == 0 {
        return None;
    }
    let first = s.get_char(0);
    let neg = first == '-';
    let start: usize = if first == '-' || first == '+' {
        1
    } else {
        0
    };
    if n == start {
        return None;
    }
    let ghost ds = i32_str_digits(s@);
    proof {
        assert(ds =~= s@.subrange(start as int, n as int));
    }
    let mut acc: u64 = 0;
    let mut i: usize = start;
    while i < n
        invariant
            start <= i <= n,
            n == s@.len(),
            start < n,
            start <= 1,
            ds == s@.subrange(start as int, n as int),
            ds == i32_str_digits(s@),
            neg == i32_str_negative(s@),
            acc == dec_val(ds.take(i - start)),
            all_digits(ds.take(i - start)),
            acc <= 0x8000_0000,
        decreases n - i,
    {
        let c = s.get_char(i);
        if !('0' <= c && c <= '9') {
            assert(!all_digits(ds)) by {
                assert(ds[i - start] == c);
            }
            return None;
        }
        let d: u64 = (c as u32 - '0' as u32) as u64;
        proof {
            lemma_dec_val_push(ds.take(i - start), c);
            assert(ds.take(i - start).push(c) =~= ds.take(i + 1 - start));
        }
        if acc > 214748364 || (acc == 214748364 && d > 8) {
            proof {
                assert(dec_val(ds.take(i + 1 - start)) > 0x8000_0000) by (nonlinear_arith)
                    requires
                        dec_val(ds.take(i + 1 - start)) == acc * 10 + d,
                        acc > 214748364 || (acc == 214748364 && d > 8),
                        acc >= 0,
                        d >= 0,
                ;
                if all_digits(ds) {
                    lemma_dec_val_prefix_le(ds, i + 1 - start);
                }
            }
            return None;
        }
        acc = acc * 10 + d;
        i += 1;
    }
    proof {
        assert(ds.take(n - start) =~= ds);
    }
    if neg {
        Some((-(acc as i64)) as i32)
    } else {
        if acc > 2147483647 {
            return None;
        }
        Some(acc as i32)
    }
}

/// Parsing the printed form of an `i32` gives the number back.
pub proof fn lemma_parse_of_dec_int(n: int)
    requires
        i32::MIN <= n <= i32::MAX,
    ensures
        is_i32_str(dec_int(n)),
        i32_str_val(dec_int(n)) == n,
{
    if n < 0 {
        lemma_dec_digits_val((-n) as nat);
        assert(i32_str_digits(dec_int(n)) =~= dec_digits((-n) as nat));
    } else {
        lemma_dec_digits_val(n as nat);
        assert(i32_str_digits(dec_int(n)) =~= dec_digits(n as nat));
    }
}

} // verus!
