//! Canonical rendering of the crate's numeric values as decimal text.
//!
//! The spec functions here define, character by character, what the `display`
//! methods of the value types return; the executable functions produce those
//! strings and are verified against them.

use vstd::prelude::*;
use vstd::string::StrSliceExecFns;
use vstd::string::StringExecFns;

verus! {

/// The decimal digit character for a single digit value.
pub open spec fn spec_digit(d: nat) -> char {
    if d == 0 {
        '0'
    } else if d == 1 {
        '1'
    } else if d == 2 {
        '2'
    } else if d == 3 {
        '3'
    } else if d == 4 {
        '4'
    } else if d == 5 {
        '5'
    } else if d == 6 {
        '6'
    } else if d == 7 {
        '7'
    } else if d == 8 {
        '8'
    } else {
        '9'
    }
}

/// The decimal rendering of a non-negative number, most significant digit
/// first, with no padding and no sign.
pub open spec fn spec_udec(n: nat) -> Seq<char>
    decreases n,
{
    if n < 10 {
        seq![spec_digit(n)]
    } else {
        spec_udec(n / 10).push(spec_digit(n % 10))
    }
}

/// The decimal rendering of an integer: a leading '-' for negative values,
/// otherwise the digits alone.
pub open spec fn spec_idec(v: int) -> Seq<char> {
    if v < 0 {
        seq!['-'] + spec_udec((-v) as nat)
    } else {
        spec_udec(v as nat)
    }
}

/// The rendering of a non-negative count of hundredths of a percent:
/// the whole percents, a point, exactly two fraction digits, and '%'.
pub open spec fn spec_percent_mag(raw: nat) -> Seq<char> {
    spec_udec(raw / 100) + seq!['.', spec_digit((raw % 100) / 10), spec_digit((raw % 100) % 10), '%']
}

/// The rendering of a count of hundredths of a percent, signed.
pub open spec fn spec_percent(raw: int) -> Seq<char> {
    if raw < 0 {
        seq!['-'] + spec_percent_mag((-raw) as nat)
    } else {
        spec_percent_mag(raw as nat)
    }
}

/// A one-character string slice holding the given decimal digit.
fn digit_str(d: u64) -> (s: &'static str)
    requires
        d < 10,
    ensures
        s@ == seq![spec_digit(d as nat)],
{
    proof {
        reveal_strlit("0");
        reveal_strlit("1");
        reveal_strlit("2");
        reveal_strlit("3");
        reveal_strlit("4");
        reveal_strlit("5");
        reveal_strlit("6");
        reveal_strlit("7");
        reveal_strlit("8");
        reveal_strlit("9");
    }
    let s: &'static str = if d == 0 {
        "0"
    } else if d == 1 {
        "1"
    } else if d == 2 {
        "2"
    } else if d == 3 {
        "3"
    } else if d == 4 {
        "4"
    } else if d == 5 {
        "5"
    } else if d == 6 {
        "6"
    } else if d == 7 {
        "7"
    } else if d == 8 {
        "8"
    } else {
        "9"
    };
    proof {
        assert(s@ =~= seq![spec_digit(d as nat)]);
    }
    s
}

/// The decimal digits of a non-negative number, as `spec_udec` gives them.
pub(crate) fn udec_string(n: u64) -> (s: String)
    ensures
        s@ == spec_udec(n as nat),
    decreases n,
{
    if n < 10 {
        String::from_str(digit_str(n))
    } else {
        let mut s = udec_string(n / 10);
        s.append(digit_str(n % 10));
        proof {
            assert(s@ =~= spec_udec(n as nat));
        }
        s
    }
}

/// The signed decimal digits of an integer, as `spec_idec` gives them.
pub(crate) fn idec_string(v: i64) -> (s: String)
    requires
        v > i64::MIN,
    ensures
        s@ == spec_idec(v as int),
{
    if v < 0 {
        let mut s = String::from_str("-");
        let mag = udec_string((-v) as u64);
        s.append(mag.as_str());
        proof {
            reveal_strlit("-");
            assert(s@ =~= spec_idec(v as int));
        }
        s
    } else {
        udec_string(v as u64)
    }
}

/// The magnitude part of a percentage rendering, as `spec_percent_mag`.
fn percent_mag_string(raw: u64) -> (s: String)
    ensures
        s@ == spec_percent_mag(raw as nat),
{
    let mut s = udec_string(raw / 100);
    let frac = raw % 100;
    s.append(".");
    s.append(digit_str(frac / 10));
    s.append(digit_str(frac % 10));
    s.append("%");
    proof {
        reveal_strlit(".");
        reveal_strlit("%");
        assert(s@ =~= spec_percent_mag(raw as nat));
    }
    s
}

/// A signed count of hundredths of a percent rendered as `spec_percent`.
pub(crate) fn percent_string(raw: i64) -> (s: String)
    requires
        raw > i64::MIN,
    ensures
        s@ == spec_percent(raw as int),
{
    if raw < 0 {
        let mut s = String::from_str("-");
        let mag = percent_mag_string((-raw) as u64);
        s.append(mag.as_str());
        proof {
            reveal_strlit("-");
            assert(s@ =~= spec_percent(raw as int));
        }
        s
    } else {
        percent_mag_string(raw as u64)
    }
}

} // verus!
