//! Decimal numerals as text.

use vstd::prelude::*;

verus! {

/// The character that writes the digit `d`.
pub open spec fn digit_char(d: int) -> char {
    if d == 0 {
        '0'
    } else if d == 1 {
        '1'
    } else if d == 2 {
        '2'
    } else if d == 3 {
        '3'
    } else if d == 4 {
        '4'
    } else if d == 5 {
        '5'
    } else if d == 6 {
        '6'
    } else if d == 7 {
        '7'
    } else if d == 8 {
        '8'
    } else {
        '9'
    }
}

/// The decimal numeral of `n`: most significant digit first, no leading zero
/// except for zero itself.
pub open spec fn decimal_text(n: nat) -> Seq<char>
    decreases n,
{
    if n < 10 {
        seq![digit_char(n as int)]
    } else {
        decimal_text(n / 10).push(digit_char((n % 10) as int))
    }
}

/// The digits of `part`, the first of them weighing `unit`, up to and
/// including the last digit that is not zero.
///
/// With `unit` a power of ten and `part < 10 * unit` these are the digits
/// that follow the decimal point of `part / (10 * unit)`.
pub open spec fn fraction_digits(part: nat, unit: nat) -> Seq<char>
    decreases unit,
{
    if part == 0 || unit == 0 {
        Seq::empty()
    } else {
        seq![digit_char((part / unit) as int)] + fraction_digits(part % unit, unit / 10)
    }
}

/// The weight of the first of nine fractional digits.
pub const TENTH_IN_NANOS: u32 = 100_000_000;

/// What follows the whole seconds of a numeral when `nanos` billionths are
/// left over: nothing if there are none, else a point and the digits down to
/// the last one that is not zero.
pub open spec fn fraction_text(nanos: nat) -> Seq<char> {
    if nanos == 0 {
        Seq::empty()
    } else {
        seq!['.'] + fraction_digits(nanos, TENTH_IN_NANOS as nat)
    }
}

/// Whether `unit` is a power of ten that a nanosecond count has a digit for.
pub open spec fn is_digit_weight(unit: nat) -> bool {
    unit == 1 || unit == 10 || unit == 100 || unit == 1_000 || unit == 10_000 || unit == 100_000
        || unit == 1_000_000 || unit == 10_000_000 || unit == 100_000_000
}

/// The one-character string for the digit `d`.
fn digit_str(d: u8) -> (s: &'static str)
    requires
        d < 10,
    ensures
        s@ == seq![digit_char(d as int)],
{
    proof {
        reveal_strlit("0");
        reveal_strlit("1");
        reveal_strlit("2");
        reveal_strlit("3");
        reveal_strlit("4");
        reveal_strlit("5");
        reveal_strlit("6");
        reveal_strlit("7");
        reveal_strlit("8");
        reveal_strlit("9");
    }
    let s: &'static str = match d {
        0 => "0",
        1 => "1",
        2 => "2",
        3 => "3",
        4 => "4",
        5 => "5",
        6 => "6",
        7 => "7",
        8 => "8",
        _ => "9",
    };
    s
}

/// Appends the decimal numeral of `n` to `out`.
pub fn push_decimal(out: &mut String, n: u64)
    ensures
        final(out)@ == old(out)@ + decimal_text(n as nat),
    decreases n,
{
    if n >= 10 {
        push_decimal(out, n / 10);
    }
    out.append(digit_str((n % 10) as u8));
}

/// Appends the fractional part of a numeral that has `nanos` billionths.
pub fn push_fraction(out: &mut String, nanos: u32)
    requires
        nanos < 1_000_000_000,
    ensures
        final(out)@ == old(out)@ + fraction_text(nanos as nat),
{
    if nanos == 0 {
        return ;
    }
    proof {
        reveal_strlit(".");
    }
    out.append(".");
    let ghost start = out@;
    let mut rest: u32 = nanos;
    let mut unit: u32 = TENTH_IN_NANOS;
    while rest != 0
        invariant
            is_digit_weight(unit as nat) || (unit == 0 && rest == 0),
            rest < 10 * unit || rest == 0,
            out@ + fraction_digits(rest as nat, unit as nat) == start + fraction_digits(
                nanos as nat,
                TENTH_IN_NANOS as nat,
            ),
        decreases unit,
    {
        let digit: u32 = rest / unit;
        let below: u32 = rest % unit;
        out.append(digit_str(digit as u8));
        rest = below;
        unit = unit / 10;
    }
}

/// The decimal numeral of `n`.
pub fn decimal_string(n: u64) -> (text: String)
    ensures
        text@ == decimal_text(n as nat),
{
    let mut text = String::new();
    push_decimal(&mut text, n);
    text
}

} // verus!
