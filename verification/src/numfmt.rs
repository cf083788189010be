//! Verified decimal formatting: canonical base-10 strings for unsigned and
//! signed integers, zero-padded two- and four-digit fields, and the
//! `seconds.centiseconds` form used by elapsed-time reports.

use vstd::prelude::*;

verus! {

/// The decimal digit character for one digit value.
pub open spec fn dec_digit(d: nat) -> char
    recommends
        d < 10,
{
    if d == 0 {
        '0'
    } else if d == 1 {
        '1'
    } else if d == 2 {
        '2'
    } else if d == 3 {
        '3'
    } else if d == 4 {
        '4'
    } else if d == 5 {
        '5'
    } else if d == 6 {
        '6'
    } else if d == 7 {
        '7'
    } else if d == 8 {
        '8'
    } else {
        '9'
    }
}

/// The canonical base-10 representation of a natural number: no sign, no
/// leading zeros (except for the single digit of zero itself).
pub open spec fn dec_rep(n: nat) -> Seq<char>
    decreases n,
{
    if n < 10 {
        seq![dec_digit(n)]
    } else {
        dec_rep(n / 10).push(dec_digit(n % 10))
    }
}

/// The canonical base-10 representation of a signed value: a `-` prefix on
/// the representation of the magnitude when negative.
pub open spec fn int_rep(i: int) -> Seq<char> {
    if i < 0 {
        seq!['-'] + dec_rep((-i) as nat)
    } else {
        dec_rep(i as nat)
    }
}

/// A field zero-padded on the left to at least two digits.
pub open spec fn dec2(n: nat) -> Seq<char> {
    if n < 10 {
        seq!['0'] + dec_rep(n)
    } else {
        dec_rep(n)
    }
}

/// A field zero-padded on the left to at least four digits.
pub open spec fn dec4(n: nat) -> Seq<char> {
    if n < 10 {
        seq!['0', '0', '0'] + dec_rep(n)
    } else if n < 100 {
        seq!['0', '0'] + dec_rep(n)
    } else if n < 1000 {
        seq!['0'] + dec_rep(n)
    } else {
        dec_rep(n)
    }
}

/// A centisecond count written as seconds with exactly two fractional
/// digits, as in an elapsed-time report.
pub open spec fn centis_rep(c: nat) -> Seq<char> {
    dec_rep(c / 100) + seq!['.'] + dec2(c % 100)
}

fn digit_str(d: u64) -> (r: &'static str)
    requires
        d < 10,
    ensures
        r@ == seq![dec_digit(d as nat)],
{
    proof {
        reveal_strlit("0");
        reveal_strlit("1");
        reveal_strlit("2");
        reveal_strlit("3");
        reveal_strlit("4");
        reveal_strlit("5");
        reveal_strlit("6");
        reveal_strlit("7");
        reveal_strlit("8");
        reveal_strlit("9");
    }
    let r: &'static str = if d == 0 {
        "0"
    } else if d == 1 {
        "1"
    } else if d == 2 {
        "2"
    } else if d == 3 {
        "3"
    } else if d == 4 {
        "4"
    } else if d == 5 {
        "5"
    } else if d == 6 {
        "6"
    } else if d == 7 {
        "7"
    } else if d == 8 {
        "8"
    } else {
        "9"
    };
    proof {
        assert(r@ =~= seq![dec_digit(d as nat)]);
    }
    r
}

/// The canonical base-10 string of an unsigned value.
pub fn u64_string(n: u64) -> (r: String)
    ensures
        r@ == dec_rep(n as nat),
    decreases n,
{
    if n < 10 {
        let r = digit_str(n).to_owned();
        proof {
            assert(r@ =~= dec_rep(n as nat));
        }
        r
    } else {
        let mut s = u64_string(n / 10);
        s.append(digit_str(n % 10));
        proof {
            assert(s@ =~= dec_rep(n as nat));
        }
        s
    }
}

/// The canonical base-10 string of a signed value, with a `-` prefix when
/// negative.
pub fn i64_string(n: i64) -> (r: String)
    ensures
        r@ == int_rep(n as int),
{
    if n >= 0 {
        let r = u64_string(n as u64);
        r
    } else {
        let wide: i128 = n as i128;
        let mag: u64 = (-wide) as u64;
        let mut s = "-".to_owned();
        let digits = u64_string(mag);
        s.append(digits.as_str());
        proof {
            reveal_strlit("-");
            assert(s@ =~= int_rep(n as int));
        }
        s
    }
}

/// An unsigned value zero-padded on the left to at least two digits.
pub fn two_digit_string(n: u64) -> (r: String)
    ensures
        r@ == dec2(n as nat),
{
    if n < 10 {
        let mut s = "0".to_owned();
        let digits = u64_string(n);
        s.append(digits.as_str());
        proof {
            reveal_strlit("0");
            assert(s@ =~= dec2(n as nat));
        }
        s
    } else {
        u64_string(n)
    }
}

/// An unsigned value zero-padded on the left to at least four digits.
pub fn four_digit_string(n: u64) -> (r: String)
    ensures
        r@ == dec4(n as nat),
{
    let pad: &'static str = if n < 10 {
        "000"
    } else if n < 100 {
        "00"
    } else if n < 1000 {
        "0"
    } else {
        ""
    };
    proof {
        reveal_strlit("000");
        reveal_strlit("00");
        reveal_strlit("0");
        reveal_strlit("");
    }
    let mut s = pad.to_owned();
    let digits = u64_string(n);
    s.append(digits.as_str());
    proof {
        assert(s@ =~= dec4(n as nat));
    }
    s
}

/// A centisecond count written as `seconds.cc`.
pub fn centis_string(c: u64) -> (r: String)
    ensures
        r@ == centis_rep(c as nat),
{
    let mut s = u64_string(c / 100);
    s.append(".");
    let frac = two_digit_string(c % 100);
    s.append(frac.as_str());
    proof {
        reveal_strlit(".");
        assert(s@ =~= centis_rep(c as nat));
    }
    s
}

} // verus!
