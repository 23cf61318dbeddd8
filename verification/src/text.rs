//! Verified decimal rendering, plus the locale-grouped form of a number.

use vstd::prelude::*;
use num_format::Locale;
use num_format::ToFormattedString;

verus! {

/// The character for one decimal digit value.
pub open spec fn dec_digit(d: int) -> char {
    if d == 0 {
        '0'
    } else if d == 1 {
        '1'
    } else if d == 2 {
        '2'
    } else if d == 3 {
        '3'
    } else if d == 4 {
        '4'
    } else if d == 5 {
        '5'
    } else if d == 6 {
        '6'
    } else if d == 7 {
        '7'
    } else if d == 8 {
        '8'
    } else {
        '9'
    }
}

/// The decimal digits of a number, most significant first.
pub open spec fn spec_decimal(n: int) -> Seq<char>
    decreases n,
{
    if n < 10 {
        seq![dec_digit(n)]
    } else {
        spec_decimal(n / 10).push(dec_digit(n % 10))
    }
}

/// Decimal digits with a comma between three-digit groups, counted from
/// the right.
pub open spec fn spec_grouped(digits: Seq<char>) -> Seq<char>
    decreases digits.len(),
{
    if digits.len() <= 3 {
        digits
    } else {
        spec_grouped(digits.take(digits.len() - 3)) + seq![','] + digits.skip(digits.len() - 3)
    }
}

/// The grouped decimal form of a number.
pub open spec fn spec_grouped_decimal(n: int) -> Seq<char> {
    spec_grouped(spec_decimal(n))
}

/// One decimal digit as a string.
fn digit_str(d: u128) -> (r: &'static str)
    requires
        d < 10,
    ensures
        r@.len() == 1,
        r@[0] == dec_digit(d as int),
{
    proof {
        reveal_strlit("0");
        reveal_strlit("1");
        reveal_strlit("2");
        reveal_strlit("3");
        reveal_strlit("4");
        reveal_strlit("5");
        reveal_strlit("6");
        reveal_strlit("7");
        reveal_strlit("8");
        reveal_strlit("9");
    }
    match d {
        0 => "0",
        1 => "1",
        2 => "2",
        3 => "3",
        4 => "4",
        5 => "5",
        6 => "6",
        7 => "7",
        8 => "8",
        _ => "9",
    }
}

/// Render a number in decimal.
pub fn format_u128(n: u128) -> (r: String)
    ensures
        r@ == spec_decimal(n as int),
    decreases n,
{
    if n < 10 {
        let s = String::from_str(digit_str(n));
        proof {
            assert(s@ =~= seq![dec_digit(n as int)]);
        }
        s
    } else {
        let mut s = format_u128(n / 10);
        s.append(digit_str(n % 10));
        proof {
            assert(s@ =~= spec_decimal((n / 10) as int).push(dec_digit((n % 10) as int)));
        }
        s
    }
}

/// A rate held in thousandths, rendered with three digits after the
/// point.
pub open spec fn spec_milli_display(m: int) -> Seq<char> {
    spec_decimal(m / 1000) + seq!['.'] + seq![
        dec_digit((m / 100) % 10),
        dec_digit((m / 10) % 10),
        dec_digit(m % 10),
    ]
}

/// Render a value held in thousandths, with three digits after the point.
pub fn format_milli(m: u128) -> (r: String)
    ensures
        r@ == spec_milli_display(m as int),
{
    let mut s = format_u128(m / 1000);
    s.append(".");
    s.append(digit_str((m / 100) % 10));
    s.append(digit_str((m / 10) % 10));
    s.append(digit_str(m % 10));
    proof {
        reveal_strlit(".");
        assert(s@ =~= spec_milli_display(m as int));
    }
    s
}

/// Relies on `num_format::ToFormattedString::to_formatted_string` with the
/// `en` locale: the decimal digits of the number with `,` between
/// three-digit groups, counted from the right.
#[verifier::external_body]
pub(crate) fn format_grouped(n: u128) -> (r: String)
    ensures
        r@ == spec_grouped_decimal(n as int),
{
    n.to_formatted_string(&Locale::en)
}

} // verus!
