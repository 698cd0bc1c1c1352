//! Decimal formatting of fixed-point pixel quantities.
//!
//! The layout engine measures every pixel quantity in milli-pixels
//! (thousandths of a pixel), so that all arithmetic stays exact. When a
//! quantity is written into an SVG attribute it is printed as an ordinary
//! decimal number: the integer part, then a fractional part of at most
//! three digits with trailing zeros trimmed, and no fractional part at all
//! when the value is whole (`15875` milli-pixels prints as `15.875`,
//! `20000` as `20`, `0` as `0`).

use vstd::prelude::*;

verus! {

/// The decimal digit character for `d` in `0 ..= 9`.
pub open spec fn digit_char(d: int) -> char {
    if d == 0 {
        '0'
    } else if d == 1 {
        '1'
    } else if d == 2 {
        '2'
    } else if d == 3 {
        '3'
    } else if d == 4 {
        '4'
    } else if d == 5 {
        '5'
    } else if d == 6 {
        '6'
    } else if d == 7 {
        '7'
    } else if d == 8 {
        '8'
    } else {
        '9'
    }
}

/// The decimal representation of `n`, most significant digit first,
/// without leading zeros (`0` is printed as one digit).
pub open spec fn dec_rep(n: nat) -> Seq<char>
    decreases n,
{
    if n < 10 {
        seq![digit_char(n as int)]
    } else {
        dec_rep(n / 10) + seq![digit_char((n % 10) as int)]
    }
}

/// The fractional part `f` (in milli-units, `0 < f < 1000`) printed as
/// three digits with trailing zeros trimmed.
pub open spec fn frac_rep(f: nat) -> Seq<char> {
    let d1 = (f / 100) as int;
    let d2 = ((f / 10) % 10) as int;
    let d3 = (f % 10) as int;
    if d3 != 0 {
        seq![digit_char(d1), digit_char(d2), digit_char(d3)]
    } else if d2 != 0 {
        seq![digit_char(d1), digit_char(d2)]
    } else {
        seq![digit_char(d1)]
    }
}

/// The decimal print of `v` milli-units: optional sign, integer part,
/// and the trimmed fractional part when it is not zero.
pub open spec fn fmt_milli_spec(v: int) -> Seq<char> {
    let m = vstd::math::abs(v);
    let sign: Seq<char> = if v < 0 {
        seq!['-']
    } else {
        Seq::empty()
    };
    let ip = dec_rep((m / 1000) as nat);
    if m % 1000 == 0 {
        sign + ip
    } else {
        sign + ip + seq!['.'] + frac_rep((m % 1000) as nat)
    }
}

fn push_digit(out: &mut String, d: u128)
    requires
        d < 10,
    ensures
        final(out)@ == old(out)@ + seq![digit_char(d as int)],
{
    let c: &str = match d {
        0 => "0",
        1 => "1",
        2 => "2",
        3 => "3",
        4 => "4",
        5 => "5",
        6 => "6",
        7 => "7",
        8 => "8",
        _ => "9",
    };
    proof {
        reveal_strlit("0");
        reveal_strlit("1");
        reveal_strlit("2");
        reveal_strlit("3");
        reveal_strlit("4");
        reveal_strlit("5");
        reveal_strlit("6");
        reveal_strlit("7");
        reveal_strlit("8");
        reveal_strlit("9");
        assert(c@ =~= seq![digit_char(d as int)]);
    }
    out.append(c);
}

fn push_dec(out: &mut String, n: u128)
    ensures
        final(out)@ == old(out)@ + dec_rep(n as nat),
    decreases n,
{
    if n < 10 {
        push_digit(out, n);
    } else {
        push_dec(out, n / 10);
        push_digit(out, n % 10);
        assert(out@ =~= old(out)@ + dec_rep(n as nat));
    }
}

/// Prints `v` milli-units as a decimal number of units.
pub fn fmt_milli(v: i128) -> (r: String)
    requires
        v != i128::MIN,
    ensures
        r@ == fmt_milli_spec(v as int),
{
    let mut out = String::new();
    let m: u128 = if v < 0 {
        proof {
            reveal_strlit("-");
            assert("-"@ =~= seq!['-']);
        }
        out.append("-");
        (-v) as u128
    } else {
        v as u128
    };
    let whole: u128 = m / 1000;
    let frac: u128 = m % 1000;
    push_dec(&mut out, whole);
    if frac != 0 {
        proof {
            reveal_strlit(".");
            assert("."@ =~= seq!['.']);
        }
        out.append(".");
        let d1: u128 = frac / 100;
        let d2: u128 = (frac / 10) % 10;
        let d3: u128 = frac % 10;
        if d3 != 0 {
            push_digit(&mut out, d1);
            push_digit(&mut out, d2);
            push_digit(&mut out, d3);
        } else if d2 != 0 {
            push_digit(&mut out, d1);
            push_digit(&mut out, d2);
        } else {
            push_digit(&mut out, d1);
        }
    }
    assert(out@ =~= fmt_milli_spec(v as int));
    out
}

} // verus!
