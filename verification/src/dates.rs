//! A calendar date held as plain year/month/day fields, with verified
//! `YYYY-MM-DD` formatting, parsing, and ordering.

use crate::numfmt::digit_char;
use vstd::prelude::*;
use vstd::string::StrSliceExecFns;
use vstd::string::StringExecFns;

verus! {

/// A calendar date. Valid values satisfy [`Date::wf`].
#[derive(Clone, Copy, Debug, PartialEq, Eq, Structural)]
pub struct Date {
    pub year: u32,
    pub month: u8,
    pub day: u8,
}

/// The Gregorian leap-year rule.
pub open spec fn is_leap_year(y: int) -> bool {
    y % 4 == 0 && (y % 100 != 0 || y % 400 == 0)
}

/// Days in month `m` of year `y` (for months one through twelve).
pub open spec fn days_in_month(y: int, m: int) -> int {
    if m == 2 {
        if is_leap_year(y) {
            29
        } else {
            28
        }
    } else if m == 4 || m == 6 || m == 9 || m == 11 {
        30
    } else {
        31
    }
}

/// Runtime counterpart of [`days_in_month`].
pub fn days_in_month_of(year: u32, month: u8) -> (r: u8)
    ensures
        r == days_in_month(year as int, month as int),
{
    if month == 2 {
        if year % 4 == 0 && (year % 100 != 0 || year % 400 == 0) {
            29
        } else {
            28
        }
    } else if month == 4 || month == 6 || month == 9 || month == 11 {
        30
    } else {
        31
    }
}

impl Date {
    /// A well-formed date: a real calendar day with a four-digit year.
    pub open spec fn wf(self) -> bool {
        &&& self.year <= 9999
        &&& 1 <= self.month <= 12
        &&& 1 <= self.day <= days_in_month(self.year as int, self.month as int)
    }

    /// Lexicographic order on (year, month, day).
    pub open spec fn le_spec(self, other: Date) -> bool {
        if self.year != other.year {
            self.year < other.year
        } else if self.month != other.month {
            self.month < other.month
        } else {
            self.day <= other.day
        }
    }

    /// Whether `self` is on or before `other`.
    pub fn le(&self, other: &Date) -> (r: bool)
        ensures
            r == self.le_spec(*other),
    {
        if self.year != other.year {
            self.year < other.year
        } else if self.month != other.month {
            self.month < other.month
        } else {
            self.day <= other.day
        }
    }
}

/// The canonical `YYYY-MM-DD` rendering of a date.
pub open spec fn date_str(d: Date) -> Seq<char> {
    let y = d.year as nat;
    let m = d.month as nat;
    let dd = d.day as nat;
    seq![
        digit_char(y / 1000 % 10),
        digit_char(y / 100 % 10),
        digit_char(y / 10 % 10),
        digit_char(y % 10),
        '-',
        digit_char(m / 10 % 10),
        digit_char(m % 10),
        '-',
        digit_char(dd / 10 % 10),
        digit_char(dd % 10),
    ]
}

/// Append one zero-padded decimal digit of `n` (the digit at divisor `div`).
fn append_digit(s: &mut String, n: u32, div: u32)
    requires
        div >= 1,
    ensures
        final(s)@ == old(s)@ + seq![digit_char((n / div % 10) as nat)],
{
    let d = n / div % 10;
    let r = crate::numfmt::u64_to_string(d as u64);
    s.append(r.as_str());
}

/// Format a date as `YYYY-MM-DD`, zero padded.
pub fn format_date(d: &Date) -> (r: String)
    ensures
        r@ == date_str(*d),
{
    proof {
        reveal_strlit("-");
    }
    let mut s = String::new();
    append_digit(&mut s, d.year, 1000);
    append_digit(&mut s, d.year, 100);
    append_digit(&mut s, d.year, 10);
    append_digit(&mut s, d.year, 1);
    s.append("-");
    append_digit(&mut s, d.month as u32, 10);
    append_digit(&mut s, d.month as u32, 1);
    s.append("-");
    append_digit(&mut s, d.day as u32, 10);
    append_digit(&mut s, d.day as u32, 1);
    proof {
        assert(s@ =~= date_str(*d));
    }
    s
}

/// Whether `c` is an ASCII decimal digit.
pub open spec fn is_digit(c: char) -> bool {
    '0' <= c && c <= '9'
}

/// Numeric value of an ASCII digit.
pub open spec fn digit_val(c: char) -> int {
    c as u32 - 0x30
}

/// Whether `s` is a well-formed `YYYY-MM-DD` date string naming a real
/// calendar day.
pub open spec fn valid_date_str(s: Seq<char>) -> bool {
    &&& s.len() == 10
    &&& is_digit(s[0]) && is_digit(s[1]) && is_digit(s[2]) && is_digit(s[3])
    &&& s[4] == '-'
    &&& is_digit(s[5]) && is_digit(s[6])
    &&& s[7] == '-'
    &&& is_digit(s[8]) && is_digit(s[9])
    &&& {
        let m = digit_val(s[5]) * 10 + digit_val(s[6]);
        let dd = digit_val(s[8]) * 10 + digit_val(s[9]);
        let y = digit_val(s[0]) * 1000 + digit_val(s[1]) * 100 + digit_val(s[2]) * 10 + digit_val(
            s[3],
        );
        1 <= m <= 12 && 1 <= dd <= days_in_month(y, m)
    }
}

/// The date a well-formed `YYYY-MM-DD` string names (meaningful only when
/// [`valid_date_str`] holds).
pub open spec fn date_of(s: Seq<char>) -> Date {
    Date {
        year: (digit_val(s[0]) * 1000 + digit_val(s[1]) * 100 + digit_val(s[2]) * 10 + digit_val(
            s[3],
        )) as u32,
        month: (digit_val(s[5]) * 10 + digit_val(s[6])) as u8,
        day: (digit_val(s[8]) * 10 + digit_val(s[9])) as u8,
    }
}

/// Runtime test for an ASCII digit, returning its value.
fn digit_of(c: char) -> (r: Option<u32>)
    ensures
        r is Some <==> is_digit(c),
        r matches Some(v) ==> v == digit_val(c) && v <= 9,
{
    let u = c as u32;
    if 0x30 <= u && u <= 0x39 {
        Some(u - 0x30)
    } else {
        None
    }
}

proof fn lemma_two_digits(n: int, h: int, l: int)
    requires
        0 <= h <= 9,
        0 <= l <= 9,
        n == h * 10 + l,
    ensures
        n / 10 % 10 == h,
        n % 10 == l,
{
    vstd::arithmetic::div_mod::lemma_fundamental_div_mod_converse_div(n, 10, h, l);
    vstd::arithmetic::div_mod::lemma_fundamental_div_mod_converse_mod(n, 10, h, l);
    vstd::arithmetic::div_mod::lemma_small_mod(h as nat, 10);
}

proof fn lemma_four_digits(n: int, a: int, b: int, c: int, d: int)
    requires
        0 <= a <= 9,
        0 <= b <= 9,
        0 <= c <= 9,
        0 <= d <= 9,
        n == a * 1000 + b * 100 + c * 10 + d,
    ensures
        n / 1000 % 10 == a,
        n / 100 % 10 == b,
        n / 10 % 10 == c,
        n % 10 == d,
{
    vstd::arithmetic::div_mod::lemma_fundamental_div_mod_converse_div(n, 1000, a, b * 100 + c * 10 + d);
    vstd::arithmetic::div_mod::lemma_small_mod(a as nat, 10);
    vstd::arithmetic::div_mod::lemma_fundamental_div_mod_converse_div(n, 100, a * 10 + b, c * 10 + d);
    vstd::arithmetic::div_mod::lemma_fundamental_div_mod_converse_mod(a * 10 + b, 10, a, b);
    vstd::arithmetic::div_mod::lemma_fundamental_div_mod_converse_div(n, 10, a * 100 + b * 10 + c, d);
    vstd::arithmetic::div_mod::lemma_fundamental_div_mod_converse_mod(
        a * 100 + b * 10 + c,
        10,
        a * 10 + b,
        c,
    );
    vstd::arithmetic::div_mod::lemma_fundamental_div_mod_converse_mod(n, 10, a * 100 + b * 10 + c, d);
}

/// Parse a `YYYY-MM-DD` string into a date. Returns `None` exactly when the
/// text is not a well-formed date of that shape.
pub fn parse_date(s: &str) -> (r: Option<Date>)
    ensures
        r is Some <==> valid_date_str(s@),
        r matches Some(d) ==> d == date_of(s@) && d.wf() && date_str(d) == s@,
{
    if s.unicode_len() != 10 {
        return None;
    }
    let c4 = s.get_char(4);
    let c7 = s.get_char(7);
    if c4 != '-' || c7 != '-' {
        return None;
    }
    let d0 = digit_of(s.get_char(0));
    let d1 = digit_of(s.get_char(1));
    let d2 = digit_of(s.get_char(2));
    let d3 = digit_of(s.get_char(3));
    let d5 = digit_of(s.get_char(5));
    let d6 = digit_of(s.get_char(6));
    let d8 = digit_of(s.get_char(8));
    let d9 = digit_of(s.get_char(9));
    match (d0, d1, d2, d3, d5, d6, d8, d9) {
        (
            Some(y0),
            Some(y1),
            Some(y2),
            Some(y3),
            Some(m0),
            Some(m1),
            Some(a0),
            Some(a1),
        ) => {
            let year: u32 = y0 * 1000 + y1 * 100 + y2 * 10 + y3;
            let month: u8 = (m0 * 10 + m1) as u8;
            let day: u8 = (a0 * 10 + a1) as u8;
            if month < 1 || month > 12 {
                return None;
            }
            if day < 1 || day > days_in_month_of(year, month) {
                return None;
            }
            let d = Date { year, month, day };
            proof {
                lemma_four_digits(year as int, y0 as int, y1 as int, y2 as int, y3 as int);
                lemma_two_digits(month as int, m0 as int, m1 as int);
                lemma_two_digits(day as int, a0 as int, a1 as int);
                assert(date_str(d) =~= s@);
            }
            Some(d)
        },
        _ => None,
    }
}

} // verus!
