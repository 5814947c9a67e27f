//! Decimal notation for signed 8-bit integers.
//!
//! The notation is the usual one: an optional minus sign followed by the digits of the
//! magnitude, most significant first, with no leading zero and no plus sign.

use vstd::prelude::*;

verus! {

/// The ten decimal digits in ascending order.
pub open spec fn digits() -> Seq<char> {
    seq!['0', '1', '2', '3', '4', '5', '6', '7', '8', '9']
}

/// Decimal notation of a natural number.
pub open spec fn decimal_nat(n: nat) -> Seq<char>
    decreases n,
{
    if n < 10 {
        seq![digits()[n as int]]
    } else {
        decimal_nat(n / 10).push(digits()[(n % 10) as int])
    }
}

/// Decimal notation of an integer.
pub open spec fn decimal(v: int) -> Seq<char> {
    if v < 0 {
        seq!['-'] + decimal_nat((-v) as nat)
    } else {
        decimal_nat(v as nat)
    }
}

/// The one-character string that holds the digit `d`.
fn digit_str(d: u8) -> (s: &'static str)
    requires
        d < 10,
    ensures
        s@ == seq![digits()[d as int]],
{
    proof {
        reveal_strlit("0");
        reveal_strlit("1");
        reveal_strlit("2");
        reveal_strlit("3");
        reveal_strlit("4");
        reveal_strlit("5");
        reveal_strlit("6");
        reveal_strlit("7");
        reveal_strlit("8");
        reveal_strlit("9");
    }
    let s: &'static str = match d {
        0 => "0",
        1 => "1",
        2 => "2",
        3 => "3",
        4 => "4",
        5 => "5",
        6 => "6",
        7 => "7",
        8 => "8",
        _ => "9",
    };
    assert(s@ =~= seq![digits()[d as int]]);
    s
}

/// The absolute value of `v`, which always fits in eight unsigned bits.
fn magnitude(v: i8) -> (m: u8)
    ensures
        m == if v < 0 { -(v as int) } else { v as int },
{
    let wide: i16 = v as i16;
    if wide < 0 {
        (-wide) as u8
    } else {
        wide as u8
    }
}

/// Writes `v` in decimal notation.
pub fn to_decimal(v: i8) -> (s: String)
    ensures
        s@ == decimal(v as int),
{
    let m: u8 = magnitude(v);
    let mut s: String = String::new();
    if v < 0 {
        proof {
            reveal_strlit("-");
        }
        s.append("-");
    }
    let ghost sign: Seq<char> = s@;
    assert(sign =~= if v < 0 { seq!['-'] } else { Seq::<char>::empty() });
    if m >= 100 {
        s.append(digit_str(m / 100));
    }
    if m >= 10 {
        s.append(digit_str((m / 10) % 10));
    }
    s.append(digit_str(m % 10));
    proof {
        reveal_with_fuel(decimal_nat, 3);
        assert(s@ =~= sign + decimal_nat(m as nat));
    }
    s
}

} // verus!
