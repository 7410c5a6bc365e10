//! Decimal text for the numeric fields of the status line.
//!
//! Numeric fields are carried as scaled integers (tenths, hundredths), so
//! the fractional renderings here are exact.

use vstd::prelude::*;
use vstd::string::StringExecFns;

verus! {

/// The character for one decimal digit value (ten and above fall back to
/// `'9'`; every caller stays below ten).
pub open spec fn digit_char(d: nat) -> char {
    if d == 0 {
        '0'
    } else if d == 1 {
        '1'
    } else if d == 2 {
        '2'
    } else if d == 3 {
        '3'
    } else if d == 4 {
        '4'
    } else if d == 5 {
        '5'
    } else if d == 6 {
        '6'
    } else if d == 7 {
        '7'
    } else if d == 8 {
        '8'
    } else {
        '9'
    }
}

/// Decimal digits of `n`, most significant first, without leading zeros
/// (a single `'0'` for zero).
pub open spec fn spec_dec(n: nat) -> Seq<char>
    decreases n,
{
    if n < 10 {
        seq![digit_char(n)]
    } else {
        spec_dec(n / 10) + seq![digit_char(n % 10)]
    }
}

/// Two digits, zero padded: the rendering of minutes, seconds and the like.
pub open spec fn spec_two_digits(n: nat) -> Seq<char> {
    seq![digit_char(n / 10 % 10), digit_char(n % 10)]
}

/// Four digits, zero padded: the rendering of a year.
pub open spec fn spec_four_digits(n: nat) -> Seq<char> {
    spec_two_digits(n / 100 % 100) + spec_two_digits(n % 100)
}

/// A quantity of hundredths rendered with two decimal places, `"0.50"` style.
pub open spec fn spec_centi(n: nat) -> Seq<char> {
    spec_dec(n / 100) + seq!['.'] + spec_two_digits(n % 100)
}

/// A quantity of tenths rendered with one decimal place, `"2048.0"` style.
pub open spec fn spec_deci(n: nat) -> Seq<char> {
    spec_dec(n / 10) + seq!['.'] + seq![digit_char(n % 10)]
}

/// One decimal digit as text.
fn digit_str(d: u8) -> (r: &'static str)
    requires
        d < 10,
    ensures
        r@ == seq![digit_char(d as nat)],
{
    let r: &'static str = match d {
        0 => "0",
        1 => "1",
        2 => "2",
        3 => "3",
        4 => "4",
        5 => "5",
        6 => "6",
        7 => "7",
        8 => "8",
        _ => "9",
    };
    proof {
        reveal_strlit("0");
        reveal_strlit("1");
        reveal_strlit("2");
        reveal_strlit("3");
        reveal_strlit("4");
        reveal_strlit("5");
        reveal_strlit("6");
        reveal_strlit("7");
        reveal_strlit("8");
        reveal_strlit("9");
        assert(r@ =~= seq![digit_char(d as nat)]);
    }
    r
}

/// The plain decimal rendering of `n`.
pub fn u64_to_string(n: u64) -> (r: String)
    ensures
        r@ == spec_dec(n as nat),
    decreases n,
{
    if n < 10 {
        digit_str(n as u8).to_owned()
    } else {
        let mut r = u64_to_string(n / 10);
        r.append(digit_str((n % 10) as u8));
        proof {
            assert(r@ =~= spec_dec(n as nat));
        }
        r
    }
}

/// Two digits of `n`, zero padded.
pub fn two_digits(n: u8) -> (r: String)
    ensures
        r@ == spec_two_digits(n as nat),
{
    let mut r = digit_str(n / 10 % 10).to_owned();
    r.append(digit_str(n % 10));
    proof {
        assert(r@ =~= spec_two_digits(n as nat));
    }
    r
}

/// Four digits of `n`, zero padded.
pub fn four_digits(n: u16) -> (r: String)
    ensures
        r@ == spec_four_digits(n as nat),
{
    let mut r = two_digits((n / 100 % 100) as u8);
    let low = two_digits((n % 100) as u8);
    r.append(low.as_str());
    proof {
        assert(r@ =~= spec_four_digits(n as nat));
    }
    r
}

/// `n` hundredths rendered with two decimal places.
pub fn centi_to_string(n: u64) -> (r: String)
    ensures
        r@ == spec_centi(n as nat),
{
    let mut r = u64_to_string(n / 100);
    r.append(".");
    let frac = two_digits((n % 100) as u8);
    r.append(frac.as_str());
    proof {
        reveal_strlit(".");
        assert(r@ =~= spec_centi(n as nat));
    }
    r
}

/// `n` tenths rendered with one decimal place.
pub fn deci_to_string(n: u64) -> (r: String)
    ensures
        r@ == spec_deci(n as nat),
{
    let mut r = u64_to_string(n / 10);
    r.append(".");
    r.append(digit_str((n % 10) as u8));
    proof {
        reveal_strlit(".");
        assert(r@ =~= spec_deci(n as nat));
    }
    r
}

} // verus!
