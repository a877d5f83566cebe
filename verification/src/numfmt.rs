//! Decimal rendering of integers and of fixed-point values with two
//! decimal places, used by the SVG output.

use vstd::prelude::*;
use vstd::string::StrSliceExecFns;
use vstd::string::StringExecFns;

verus! {

/// The decimal digit character for a value in `0 ..= 9`.
pub open spec fn digit_char(d: int) -> char {
    if d == 0 {
        '0'
    } else if d == 1 {
        '1'
    } else if d == 2 {
        '2'
    } else if d == 3 {
        '3'
    } else if d == 4 {
        '4'
    } else if d == 5 {
        '5'
    } else if d == 6 {
        '6'
    } else if d == 7 {
        '7'
    } else if d == 8 {
        '8'
    } else {
        '9'
    }
}

/// The usual decimal representation of a natural number, most
/// significant digit first, with no leading zeros (a lone `0` for zero).
pub open spec fn spec_dec(n: nat) -> Seq<char>
    decreases n,
{
    if n < 10 {
        seq![digit_char(n as int)]
    } else {
        spec_dec(n / 10) + seq![digit_char((n % 10) as int)]
    }
}

fn digit_str(d: u64) -> (r: &'static str)
    requires
        d < 10,
    ensures
        r@ == seq![digit_char(d as int)],
{
    proof {
        reveal_strlit("0");
        reveal_strlit("1");
        reveal_strlit("2");
        reveal_strlit("3");
        reveal_strlit("4");
        reveal_strlit("5");
        reveal_strlit("6");
        reveal_strlit("7");
        reveal_strlit("8");
        reveal_strlit("9");
    }
    if d == 0 {
        "0"
    } else if d == 1 {
        "1"
    } else if d == 2 {
        "2"
    } else if d == 3 {
        "3"
    } else if d == 4 {
        "4"
    } else if d == 5 {
        "5"
    } else if d == 6 {
        "6"
    } else if d == 7 {
        "7"
    } else if d == 8 {
        "8"
    } else {
        "9"
    }
}

/// Renders a natural number in decimal.
pub fn u64_to_string(n: u64) -> (s: String)
    ensures
        s@ == spec_dec(n as nat),
    decreases n,
{
    if n < 10 {
        digit_str(n).to_owned()
    } else {
        let mut s = u64_to_string(n / 10);
        s.append(digit_str(n % 10));
        s
    }
}

/// The rendering of a value counted in hundredths, as an integer part
/// followed by a dot and exactly two decimal digits; negative values
/// carry a leading minus sign.
pub open spec fn spec_centi(c: int) -> Seq<char> {
    if c < 0 {
        seq!['-'] + spec_centi_mag(-c as nat)
    } else {
        spec_centi_mag(c as nat)
    }
}

/// The two-decimal rendering of a nonnegative count of hundredths.
pub open spec fn spec_centi_mag(m: nat) -> Seq<char> {
    spec_dec(m / 100) + seq!['.', digit_char((m / 10 % 10) as int), digit_char((m % 10) as int)]
}

fn centi_mag_to_string(m: u64) -> (s: String)
    ensures
        s@ == spec_centi_mag(m as nat),
{
    let mut s = u64_to_string(m / 100);
    s.append(".");
    s.append(digit_str(m / 10 % 10));
    s.append(digit_str(m % 10));
    proof {
        reveal_strlit(".");
        assert(s@ =~= spec_centi_mag(m as nat));
    }
    s
}

/// Renders a count of hundredths with two decimal places, the way the
/// SVG output writes coordinates.
pub fn centi_to_string(c: i64) -> (s: String)
    requires
        c != i64::MIN,
    ensures
        s@ == spec_centi(c as int),
{
    if c < 0 {
        let mut s = "-".to_owned();
        proof {
            reveal_strlit("-");
        }
        s.append(centi_mag_to_string((-c) as u64).as_str());
        proof {
            assert(s@ =~= spec_centi(c as int));
        }
        s
    } else {
        centi_mag_to_string(c as u64)
    }
}

} // verus!
