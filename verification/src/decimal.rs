//! Decimal rendering of integers, used to build error messages.

use vstd::prelude::*;

verus! {

/// The character for a single decimal digit.
pub open spec fn digit_char(d: int) -> char {
    if d == 0 {
        '0'
    } else if d == 1 {
        '1'
    } else if d == 2 {
        '2'
    } else if d == 3 {
        '3'
    } else if d == 4 {
        '4'
    } else if d == 5 {
        '5'
    } else if d == 6 {
        '6'
    } else if d == 7 {
        '7'
    } else if d == 8 {
        '8'
    } else {
        '9'
    }
}

/// The decimal rendering of a non-negative integer, most significant digit
/// first, with no leading zeros (except for zero itself).
pub open spec fn dec_digits(n: int) -> Seq<char>
    decreases n,
{
    if n < 10 {
        seq![digit_char(n)]
    } else {
        dec_digits(n / 10).push(digit_char(n % 10))
    }
}

/// The decimal rendering of a signed integer: a minus sign followed by the
/// digits of the absolute value when negative.
pub open spec fn dec_signed(n: int) -> Seq<char> {
    if n < 0 {
        seq!['-'] + dec_digits(-n)
    } else {
        dec_digits(n)
    }
}

fn digit_str(d: u64) -> (s: &'static str)
    requires
        d < 10,
    ensures
        s@ =~= seq![digit_char(d as int)],
{
    proof {
        reveal_strlit("0");
        reveal_strlit("1");
        reveal_strlit("2");
        reveal_strlit("3");
        reveal_strlit("4");
        reveal_strlit("5");
        reveal_strlit("6");
        reveal_strlit("7");
        reveal_strlit("8");
        reveal_strlit("9");
    }
    if d == 0 {
        "0"
    } else if d == 1 {
        "1"
    } else if d == 2 {
        "2"
    } else if d == 3 {
        "3"
    } else if d == 4 {
        "4"
    } else if d == 5 {
        "5"
    } else if d == 6 {
        "6"
    } else if d == 7 {
        "7"
    } else if d == 8 {
        "8"
    } else {
        "9"
    }
}

/// Renders an unsigned integer in decimal.
pub fn u64_to_string(n: u64) -> (s: String)
    ensures
        s@ == dec_digits(n as int),
{
    let mut s = String::from_str(digit_str(n % 10));
    let mut m: u64 = n / 10;
    proof {
        if n >= 10 {
            assert(dec_digits(n as int) =~= dec_digits(n as int / 10) + s@);
        }
    }
    while m > 0
        invariant
            if m == 0 {
                s@ == dec_digits(n as int)
            } else {
                dec_digits(n as int) == dec_digits(m as int) + s@
            },
        decreases m,
    {
        let ghost prev = s@;
        let t = String::from_str(digit_str(m % 10));
        let s2 = t.concat(s.as_str());
        s = s2;
        proof {
            assert(s@ =~= seq![digit_char(m as int % 10)] + prev);
            if m >= 10 {
                assert(dec_digits(m as int) =~= dec_digits(m as int / 10).push(
                    digit_char(m as int % 10),
                ));
                assert(dec_digits(m as int) + prev =~= dec_digits(m as int / 10) + s@);
            } else {
                assert(dec_digits(m as int) =~= seq![digit_char(m as int % 10)]);
                assert(dec_digits(m as int) + prev =~= s@);
            }
        }
        m = m / 10;
    }
    s
}

/// Renders a signed integer in decimal.
pub fn i64_to_string(n: i64) -> (s: String)
    ensures
        s@ == dec_signed(n as int),
{
    if n < 0 {
        proof {
            reveal_strlit("-");
        }
        let sign = String::from_str("-");
        let abs: u64 = if n == i64::MIN {
            9223372036854775808u64
        } else {
            (-n) as u64
        };
        let mag = u64_to_string(abs);
        let s = sign.concat(mag.as_str());
        proof {
            assert(s@ =~= dec_signed(n as int));
        }
        s
    } else {
        u64_to_string(n as u64)
    }
}

/// Renders a `u32` in decimal.
pub fn u32_to_string(n: u32) -> (s: String)
    ensures
        s@ == dec_digits(n as int),
{
    u64_to_string(n as u64)
}

/// Renders an `i32` in decimal.
pub fn i32_to_string(n: i32) -> (s: String)
    ensures
        s@ == dec_signed(n as int),
{
    i64_to_string(n as i64)
}

/// Renders a `usize` in decimal.
pub fn usize_to_string(n: usize) -> (s: String)
    ensures
        s@ == dec_digits(n as int),
{
    u64_to_string(n as u64)
}

} // verus!
