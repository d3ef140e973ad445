//! Decimal rendering of fixed-point quantities.
//!
//! Prices are held in thousandths (milli) and the daily delta in
//! hundredths (centi); the functions here render them as the decimal
//! strings the summaries and error messages show.

use vstd::prelude::*;

verus! {

/// The character for one decimal digit.
pub open spec fn spec_digit_char(d: int) -> char
    recommends
        0 <= d < 10,
{
    if d == 0 {
        '0'
    } else if d == 1 {
        '1'
    } else if d == 2 {
        '2'
    } else if d == 3 {
        '3'
    } else if d == 4 {
        '4'
    } else if d == 5 {
        '5'
    } else if d == 6 {
        '6'
    } else if d == 7 {
        '7'
    } else if d == 8 {
        '8'
    } else {
        '9'
    }
}

/// Decimal digit sequence of a non-negative integer, most significant first.
pub open spec fn spec_digits(n: int) -> Seq<char>
    decreases n,
{
    if n < 10 {
        seq![spec_digit_char(n)]
    } else {
        spec_digits(n / 10).push(spec_digit_char(n % 10))
    }
}

/// Fraction digits of a thousandth part, trailing zeros dropped but at
/// least one digit kept.
pub open spec fn spec_milli_frac(f: int) -> Seq<char>
    recommends
        0 <= f < 1000,
{
    if f % 100 == 0 {
        seq![spec_digit_char(f / 100)]
    } else if f % 10 == 0 {
        seq![spec_digit_char(f / 100), spec_digit_char((f / 10) % 10)]
    } else {
        seq![spec_digit_char(f / 100), spec_digit_char((f / 10) % 10), spec_digit_char(f % 10)]
    }
}

/// Rendering of a non-negative milli-scaled value with the decimal point
/// always present (a whole number of units renders as "N.0").
pub open spec fn spec_milli_chars_dec(m: int) -> Seq<char>
    recommends
        0 <= m,
{
    spec_digits(m / 1000) + seq!['.'] + spec_milli_frac(m % 1000)
}

/// Rendering of a non-negative milli-scaled value with the point and
/// fraction omitted when the value is a whole number of units.
pub open spec fn spec_milli_chars_trim(m: int) -> Seq<char>
    recommends
        0 <= m,
{
    if m % 1000 == 0 {
        spec_digits(m / 1000)
    } else {
        spec_milli_chars_dec(m)
    }
}

/// Signed variant of [`spec_milli_chars_trim`].
pub open spec fn spec_signed_milli_chars_trim(m: int) -> Seq<char> {
    if m < 0 {
        seq!['-'] + spec_milli_chars_trim(-m)
    } else {
        spec_milli_chars_trim(m)
    }
}

/// Fraction digits of a hundredth part, a trailing zero dropped.
pub open spec fn spec_centi_frac(f: int) -> Seq<char>
    recommends
        0 < f < 100,
{
    if f % 10 == 0 {
        seq![spec_digit_char(f / 10)]
    } else {
        seq![spec_digit_char(f / 10), spec_digit_char(f % 10)]
    }
}

/// Rendering of a non-negative centi-scaled value, the point and fraction
/// omitted when the value is a whole number of units.
pub open spec fn spec_centi_chars_trim(c: int) -> Seq<char>
    recommends
        0 <= c,
{
    if c % 100 == 0 {
        spec_digits(c / 100)
    } else {
        spec_digits(c / 100) + seq!['.'] + spec_centi_frac(c % 100)
    }
}

/// A one-character string for one decimal digit.
fn digit_str(d: u64) -> (r: &'static str)
    requires
        d < 10,
    ensures
        r@ == seq![spec_digit_char(d as int)],
{
    proof {
        reveal_strlit("0");
        reveal_strlit("1");
        reveal_strlit("2");
        reveal_strlit("3");
        reveal_strlit("4");
        reveal_strlit("5");
        reveal_strlit("6");
        reveal_strlit("7");
        reveal_strlit("8");
        reveal_strlit("9");
    }
    let r: &'static str = if d == 0 {
        "0"
    } else if d == 1 {
        "1"
    } else if d == 2 {
        "2"
    } else if d == 3 {
        "3"
    } else if d == 4 {
        "4"
    } else if d == 5 {
        "5"
    } else if d == 6 {
        "6"
    } else if d == 7 {
        "7"
    } else if d == 8 {
        "8"
    } else {
        "9"
    };
    proof {
        assert(r@ =~= seq![spec_digit_char(d as int)]);
    }
    r
}

/// Decimal string of a non-negative integer.
pub fn u64_to_string(n: u64) -> (r: String)
    ensures
        r@ == spec_digits(n as int),
    decreases n,
{
    if n < 10 {
        String::from_str(digit_str(n))
    } else {
        let prefix = u64_to_string(n / 10);
        let r = prefix.concat(digit_str(n % 10));
        proof {
            assert(r@ =~= spec_digits(n as int));
        }
        r
    }
}

/// Fraction part of a milli-scaled value, per [`spec_milli_frac`].
fn milli_frac_string(f: u64) -> (r: String)
    requires
        f < 1000,
    ensures
        r@ == spec_milli_frac(f as int),
{
    if f % 100 == 0 {
        String::from_str(digit_str(f / 100))
    } else if f % 10 == 0 {
        let r = String::from_str(digit_str(f / 100)).concat(digit_str((f / 10) % 10));
        proof {
            assert(r@ =~= spec_milli_frac(f as int));
        }
        r
    } else {
        let r = String::from_str(digit_str(f / 100)).concat(digit_str((f / 10) % 10)).concat(
            digit_str(f % 10),
        );
        proof {
            assert(r@ =~= spec_milli_frac(f as int));
        }
        r
    }
}

/// Renders a milli-scaled value with the decimal point always present.
pub fn milli_to_string_dec(m: u64) -> (r: String)
    ensures
        r@ == spec_milli_chars_dec(m as int),
{
    proof {
        reveal_strlit(".");
    }
    let mut s = u64_to_string(m / 1000);
    s.append(".");
    let frac = milli_frac_string(m % 1000);
    let r = s.concat(frac.as_str());
    proof {
        assert(r@ =~= spec_milli_chars_dec(m as int));
    }
    r
}

/// Renders a milli-scaled value, whole numbers without a decimal point.
pub fn milli_to_string_trim(m: u64) -> (r: String)
    ensures
        r@ == spec_milli_chars_trim(m as int),
{
    if m % 1000 == 0 {
        u64_to_string(m / 1000)
    } else {
        milli_to_string_dec(m)
    }
}

/// Renders a signed milli-scaled value, whole numbers without a decimal
/// point.
pub fn signed_milli_to_string_trim(m: i64) -> (r: String)
    ensures
        r@ == spec_signed_milli_chars_trim(m as int),
{
    proof {
        reveal_strlit("-");
    }
    if m >= 0 {
        milli_to_string_trim(m as u64)
    } else {
        let abs: u64 = ((-(m + 1)) as u64) + 1;
        proof {
            assert(abs == -(m as int));
        }
        let r = String::from_str("-").concat(milli_to_string_trim(abs).as_str());
        proof {
            assert(r@ =~= spec_signed_milli_chars_trim(m as int));
        }
        r
    }
}

/// Renders a centi-scaled value, whole numbers without a decimal point.
pub fn centi_to_string_trim(c: u64) -> (r: String)
    ensures
        r@ == spec_centi_chars_trim(c as int),
{
    proof {
        reveal_strlit(".");
    }
    let f: u64 = c % 100;
    if f == 0 {
        u64_to_string(c / 100)
    } else if f % 10 == 0 {
        let r = u64_to_string(c / 100).concat(".").concat(digit_str(f / 10));
        proof {
            assert(r@ =~= spec_centi_chars_trim(c as int));
        }
        r
    } else {
        let r = u64_to_string(c / 100).concat(".").concat(digit_str(f / 10)).concat(
            digit_str(f % 10),
        );
        proof {
            assert(r@ =~= spec_centi_chars_trim(c as int));
        }
        r
    }
}

} // verus!
