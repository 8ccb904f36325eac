//! Decimal rendering of integers, used to build problem display text.

use vstd::prelude::*;

verus! {

/// The character for one decimal digit.
pub open spec fn digit_char(d: int) -> char {
    if d == 0 {
        '0'
    } else if d == 1 {
        '1'
    } else if d == 2 {
        '2'
    } else if d == 3 {
        '3'
    } else if d == 4 {
        '4'
    } else if d == 5 {
        '5'
    } else if d == 6 {
        '6'
    } else if d == 7 {
        '7'
    } else if d == 8 {
        '8'
    } else {
        '9'
    }
}

/// Decimal digits of a natural number, most significant first, no leading
/// zeros except for zero itself.
pub open spec fn dec_digits(n: nat) -> Seq<char>
    decreases n,
{
    if n < 10 {
        seq![digit_char(n as int)]
    } else {
        dec_digits(n / 10).push(digit_char((n % 10) as int))
    }
}

/// Decimal rendering of an integer: a leading '-' for negative values,
/// then the digits of the magnitude.
pub open spec fn dec_text(n: int) -> Seq<char> {
    if n < 0 {
        seq!['-'] + dec_digits((-n) as nat)
    } else {
        dec_digits(n as nat)
    }
}

fn digit_str(d: u32) -> (r: &'static str)
    requires
        d < 10,
    ensures
        r@ == seq![digit_char(d as int)],
{
    proof {
        reveal_strlit("0");
        reveal_strlit("1");
        reveal_strlit("2");
        reveal_strlit("3");
        reveal_strlit("4");
        reveal_strlit("5");
        reveal_strlit("6");
        reveal_strlit("7");
        reveal_strlit("8");
        reveal_strlit("9");
    }
    let r = match d {
        0 => "0",
        1 => "1",
        2 => "2",
        3 => "3",
        4 => "4",
        5 => "5",
        6 => "6",
        7 => "7",
        8 => "8",
        _ => "9",
    };
    proof {
        assert(r@ =~= seq![digit_char(d as int)]);
    }
    r
}

fn push_dec_digits(n: u32, s: &mut String)
    ensures
        final(s)@ == old(s)@ + dec_digits(n as nat),
    decreases n,
{
    if n < 10 {
        s.append(digit_str(n));
    } else {
        push_dec_digits(n / 10, s);
        s.append(digit_str(n % 10));
    }
    proof {
        assert(s@ =~= old(s)@ + dec_digits(n as nat));
    }
}

/// Renders an integer in decimal, as `format!("{}", n)` would.
pub fn int_to_string(n: i32) -> (s: String)
    ensures
        s@ == dec_text(n as int),
{
    let mut s = String::new();
    if n < 0 {
        proof {
            reveal_strlit("-");
        }
        s.append("-");
        let mag64: i64 = -(n as i64);
        let mag: u32 = mag64 as u32;
        push_dec_digits(mag, &mut s);
        proof {
            assert("-"@ =~= seq!['-']);
            assert(s@ =~= dec_text(n as int));
        }
    } else {
        push_dec_digits(n as u32, &mut s);
    }
    s
}

/// Two integers around an infix separator, e.g. `"12 + 3"`.
pub fn int_pair_string(a: i32, mid: &str, b: i32) -> (s: String)
    ensures
        s@ == dec_text(a as int) + mid@ + dec_text(b as int),
{
    let mut s = int_to_string(a);
    s.append(mid);
    let tail = int_to_string(b);
    s.append(tail.as_str());
    proof {
        assert(s@ =~= dec_text(a as int) + mid@ + dec_text(b as int));
    }
    s
}

/// A fraction written with a slash, e.g. `"3/4"`.
pub open spec fn frac_pair_text(n: int, d: int) -> Seq<char> {
    dec_text(n) + seq!['/'] + dec_text(d)
}

/// Renders a fraction as `numerator/denominator`.
pub fn frac_pair_string(n: i32, d: i32) -> (s: String)
    ensures
        s@ == frac_pair_text(n as int, d as int),
{
    proof {
        reveal_strlit("/");
    }
    let s = int_pair_string(n, "/", d);
    proof {
        assert("/"@ =~= seq!['/']);
        assert(s@ =~= frac_pair_text(n as int, d as int));
    }
    s
}

/// Two fractions around an infix separator, e.g. `"1/2 + 3/4"`.
pub fn frac_expr_string(a: i32, b: i32, mid: &str, c: i32, d: i32) -> (s: String)
    ensures
        s@ == frac_pair_text(a as int, b as int) + mid@ + frac_pair_text(c as int, d as int),
{
    let mut s = frac_pair_string(a, b);
    s.append(mid);
    let tail = frac_pair_string(c, d);
    s.append(tail.as_str());
    proof {
        assert(s@ =~= frac_pair_text(a as int, b as int) + mid@ + frac_pair_text(
            c as int,
            d as int,
        ));
    }
    s
}

} // verus!
