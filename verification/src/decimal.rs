//! Rendering integers as decimal text, for error messages.

use vstd::prelude::*;
use vstd::string::StringExecFns;

verus! {

/// The character for one decimal digit.
pub open spec fn dec_digit(d: nat) -> char
    recommends
        d < 10,
{
    if d == 0 {
        '0'
    } else if d == 1 {
        '1'
    } else if d == 2 {
        '2'
    } else if d == 3 {
        '3'
    } else if d == 4 {
        '4'
    } else if d == 5 {
        '5'
    } else if d == 6 {
        '6'
    } else if d == 7 {
        '7'
    } else if d == 8 {
        '8'
    } else {
        '9'
    }
}

/// The decimal rendering of a natural number, without leading zeros
/// (except for the number zero itself).
pub open spec fn dec_nat(n: nat) -> Seq<char>
    decreases n,
{
    if n < 10 {
        seq![dec_digit(n)]
    } else {
        dec_nat(n / 10) + seq![dec_digit(n % 10)]
    }
}

/// The decimal rendering of an integer: a `-` sign for negative values,
/// then the digits of the magnitude.
pub open spec fn dec_int(v: int) -> Seq<char> {
    if v < 0 {
        seq!['-'] + dec_nat((-v) as nat)
    } else {
        dec_nat(v as nat)
    }
}

/// Appends the decimal digits of `n` to `out`.
pub fn push_decimal_u128(n: u128, out: &mut String)
    ensures
        final(out)@ == old(out)@ + dec_nat(n as nat),
    decreases n,
{
    let ghost prefix = out@;
    if n >= 10 {
        push_decimal_u128(n / 10, out);
    }
    let d = n % 10;
    let ds: &str = if d == 0 {
        "0"
    } else if d == 1 {
        "1"
    } else if d == 2 {
        "2"
    } else if d == 3 {
        "3"
    } else if d == 4 {
        "4"
    } else if d == 5 {
        "5"
    } else if d == 6 {
        "6"
    } else if d == 7 {
        "7"
    } else if d == 8 {
        "8"
    } else {
        "9"
    };
    proof {
        reveal_strlit("0");
        reveal_strlit("1");
        reveal_strlit("2");
        reveal_strlit("3");
        reveal_strlit("4");
        reveal_strlit("5");
        reveal_strlit("6");
        reveal_strlit("7");
        reveal_strlit("8");
        reveal_strlit("9");
        assert(ds@ =~= seq![dec_digit((n % 10) as nat)]);
    }
    out.append(ds);
    proof {
        if n < 10 {
            assert(out@ =~= prefix + dec_nat(n as nat));
        } else {
            assert(out@ =~= prefix + dec_nat(n as nat));
        }
    }
}

/// The decimal rendering of an unsigned value.
pub fn u128_to_decimal(n: u128) -> (s: String)
    ensures
        s@ == dec_nat(n as nat),
{
    let mut out = String::new();
    push_decimal_u128(n, &mut out);
    proof {
        assert(out@ =~= dec_nat(n as nat));
    }
    out
}

/// The decimal rendering of a signed value.
pub fn i128_to_decimal(v: i128) -> (s: String)
    ensures
        s@ == dec_int(v as int),
{
    let mut out = String::new();
    if v < 0 {
        out.append("-");
        let mag: u128 = ((-(v + 1)) as u128) + 1;
        proof {
            assert(mag == -(v as int));
            reveal_strlit("-");
        }
        push_decimal_u128(mag, &mut out);
        proof {
            assert(out@ =~= dec_int(v as int));
        }
    } else {
        push_decimal_u128(v as u128, &mut out);
        proof {
            assert(out@ =~= dec_int(v as int));
        }
    }
    out
}

} // verus!
