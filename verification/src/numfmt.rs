//! Verified decimal formatting: unsigned integers and centi-unit fixed-point
//! values rendered with two decimal places.

use vstd::math::abs;
use vstd::prelude::*;
use vstd::string::StringExecFns;

verus! {

/// The ASCII digit for `d` (digits ten and above never arise; the last arm
/// keeps the function total).
pub open spec fn digit_char(d: nat) -> char {
    if d == 0 {
        '0'
    } else if d == 1 {
        '1'
    } else if d == 2 {
        '2'
    } else if d == 3 {
        '3'
    } else if d == 4 {
        '4'
    } else if d == 5 {
        '5'
    } else if d == 6 {
        '6'
    } else if d == 7 {
        '7'
    } else if d == 8 {
        '8'
    } else {
        '9'
    }
}

/// Decimal digits of `n`, most significant first, no leading zeros.
pub open spec fn dec_str(n: nat) -> Seq<char>
    decreases n,
{
    if n < 10 {
        seq![digit_char(n)]
    } else {
        dec_str(n / 10).push(digit_char(n % 10))
    }
}

/// The single-character string for digit `d`.
fn digit_str(d: u64) -> (r: &'static str)
    requires
        d < 10,
    ensures
        r@ =~= seq![digit_char(d as nat)],
{
    proof {
        reveal_strlit("0");
        reveal_strlit("1");
        reveal_strlit("2");
        reveal_strlit("3");
        reveal_strlit("4");
        reveal_strlit("5");
        reveal_strlit("6");
        reveal_strlit("7");
        reveal_strlit("8");
        reveal_strlit("9");
    }
    if d == 0 {
        "0"
    } else if d == 1 {
        "1"
    } else if d == 2 {
        "2"
    } else if d == 3 {
        "3"
    } else if d == 4 {
        "4"
    } else if d == 5 {
        "5"
    } else if d == 6 {
        "6"
    } else if d == 7 {
        "7"
    } else if d == 8 {
        "8"
    } else {
        "9"
    }
}

/// Append the decimal digits of `n` to `s`.
pub fn append_u64(s: &mut String, n: u64)
    ensures
        final(s)@ == old(s)@ + dec_str(n as nat),
    decreases n,
{
    let ghost pre = s@;
    if n >= 10 {
        append_u64(s, n / 10);
    }
    s.append(digit_str(n % 10));
    proof {
        if n < 10 {
            assert(pre + dec_str(n as nat) =~= pre + seq![digit_char(n as nat)]);
        } else {
            assert(pre + dec_str(n as nat) =~= (pre + dec_str((n / 10) as nat)) + seq![
                digit_char((n % 10) as nat),
            ]);
        }
    }
}

/// The decimal rendering of `n`.
pub fn u64_to_string(n: u64) -> (r: String)
    ensures
        r@ == dec_str(n as nat),
{
    let mut s = String::new();
    append_u64(&mut s, n);
    proof {
        assert(Seq::<char>::empty() + dec_str(n as nat) =~= dec_str(n as nat));
    }
    s
}

/// A value of whole centi-units rendered with exactly two decimal places,
/// with a leading minus sign when negative.
pub open spec fn centi_str(v: int) -> Seq<char> {
    let a = abs(v);
    let sign: Seq<char> = if v < 0 {
        seq!['-']
    } else {
        Seq::empty()
    };
    sign + dec_str((a / 100) as nat) + seq!['.'] + seq![
        digit_char(((a / 10) % 10) as nat),
        digit_char((a % 10) as nat),
    ]
}

/// Append a centi-unit fixed-point value with two decimal places, as `-3.25`
/// for `v == -325`.
pub fn append_centi(s: &mut String, v: i64)
    ensures
        final(s)@ == old(s)@ + centi_str(v as int),
{
    let ghost pre = s@;
    proof {
        reveal_strlit("-");
        reveal_strlit(".");
    }
    let a: u64 = if v < 0 {
        (-(v as i128)) as u64
    } else {
        v as u64
    };
    if v < 0 {
        s.append("-");
    }
    append_u64(s, a / 100);
    s.append(".");
    s.append(digit_str((a / 10) % 10));
    s.append(digit_str(a % 10));
    proof {
        assert(s@ =~= pre + centi_str(v as int));
    }
}

/// The two-decimal rendering of a centi-unit value.
pub fn centi_to_string(v: i64) -> (r: String)
    ensures
        r@ == centi_str(v as int),
{
    let mut s = String::new();
    append_centi(&mut s, v);
    proof {
        assert(Seq::<char>::empty() + centi_str(v as int) =~= centi_str(v as int));
    }
    s
}

} // verus!
