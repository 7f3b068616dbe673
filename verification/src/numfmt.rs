//! Decimal rendering of the integer quantities that the screens display.
//!
//! Fractional quantities are held as integer hundredths (see `types`), so
//! the display forms here are exact: plain decimal digits, a two-decimal
//! form for hundredths, and the minutes:seconds form for durations.

use vstd::prelude::*;
use crate::text::push_char;

verus! {

/// The ASCII digit for one value below ten.
pub open spec fn digit_char(d: nat) -> char
    recommends
        d < 10,
{
    (((d + 48) as u8) as char)
}

/// The decimal digits of `n`, most significant first, with no leading
/// zeros (a single `'0'` for zero).
pub open spec fn dec_digits(n: nat) -> Seq<char>
    decreases n,
{
    if n < 10 {
        seq![digit_char(n)]
    } else {
        dec_digits(n / 10).push(digit_char(n % 10))
    }
}

/// Renders `n` in decimal.
pub fn u32_to_string(n: u32) -> (r: String)
    ensures
        r@ == dec_digits(n as nat),
    decreases n,
{
    if n < 10 {
        let mut s = String::new();
        push_char(&mut s, (48 + (n as u8)) as char);
        proof {
            assert(s@ =~= dec_digits(n as nat));
        }
        s
    } else {
        let mut s = u32_to_string(n / 10);
        push_char(&mut s, (48 + ((n % 10) as u8)) as char);
        s
    }
}

/// The display form of a value held in hundredths: the whole part, a
/// point, and exactly two decimal places.
pub open spec fn hundredths_digits(v: nat) -> Seq<char> {
    dec_digits(v / 100) + seq!['.', digit_char((v % 100) / 10), digit_char(v % 10)]
}

/// Renders a value held in hundredths with two decimal places.
pub fn format_hundredths(v: u32) -> (r: String)
    ensures
        r@ == hundredths_digits(v as nat),
{
    let mut s = u32_to_string(v / 100);
    push_char(&mut s, '.');
    push_char(&mut s, (48 + (((v % 100) / 10) as u8)) as char);
    push_char(&mut s, (48 + ((v % 10) as u8)) as char);
    proof {
        assert(s@ =~= hundredths_digits(v as nat));
    }
    s
}

/// The display form of a duration in seconds: whole minutes, a colon, and
/// the leftover seconds.
pub open spec fn duration_digits(d: nat) -> Seq<char> {
    dec_digits(d / 60) + seq![':'] + dec_digits(d % 60)
}

/// Renders a duration in seconds as minutes:seconds.
pub fn duration_display(d: u32) -> (r: String)
    ensures
        r@ == duration_digits(d as nat),
{
    let mut s = u32_to_string(d / 60);
    push_char(&mut s, ':');
    let rest = u32_to_string(d % 60);
    s.append(rest.as_str());
    proof {
        assert(s@ =~= duration_digits(d as nat));
    }
    s
}

} // verus!
