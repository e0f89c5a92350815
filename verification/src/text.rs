//! Text the shell writes: decoded process output and decimal numbers.

use vstd::prelude::*;
use vstd::string::*;

verus! {

/// The text that lossy UTF-8 decoding makes of a run of bytes: valid
/// sequences decoded, each invalid one replaced by U+FFFD.
pub uninterp spec fn utf8_lossy(bytes: Seq<u8>) -> Seq<char>;

/// Decodes bytes as UTF-8, replacing what is not valid.
///
/// Calls `String::from_utf8_lossy` of the standard library. Trusted: the
/// result is the decoding named [`utf8_lossy`] of exactly these bytes; the
/// decoding itself is not restated here.
#[verifier::external_body]
pub(crate) fn decode_lossy(bytes: &Vec<u8>) -> (text: String)
    ensures
        text@ == utf8_lossy(bytes@),
{
    String::from_utf8_lossy(bytes).into_owned()
}

/// The numeral of one decimal digit.
pub open spec fn digit_text(digit: nat) -> Seq<char> {
    if digit == 0 {
        "0"@
    } else if digit == 1 {
        "1"@
    } else if digit == 2 {
        "2"@
    } else if digit == 3 {
        "3"@
    } else if digit == 4 {
        "4"@
    } else if digit == 5 {
        "5"@
    } else if digit == 6 {
        "6"@
    } else if digit == 7 {
        "7"@
    } else if digit == 8 {
        "8"@
    } else {
        "9"@
    }
}

/// A natural number in decimal, without leading zeros.
pub open spec fn decimal_digits(n: nat) -> Seq<char>
    decreases n,
{
    if n < 10 {
        digit_text(n)
    } else {
        decimal_digits(n / 10) + digit_text(n % 10)
    }
}

/// An integer in decimal, with a minus sign in front of a negative one.
pub open spec fn decimal(value: int) -> Seq<char> {
    if value < 0 {
        "-"@ + decimal_digits((-value) as nat)
    } else {
        decimal_digits(value as nat)
    }
}

/// The numeral of one decimal digit.
fn digit_str(digit: u32) -> (text: &'static str)
    requires
        digit < 10,
    ensures
        text@ == digit_text(digit as nat),
{
    if digit == 0 {
        "0"
    } else if digit == 1 {
        "1"
    } else if digit == 2 {
        "2"
    } else if digit == 3 {
        "3"
    } else if digit == 4 {
        "4"
    } else if digit == 5 {
        "5"
    } else if digit == 6 {
        "6"
    } else if digit == 7 {
        "7"
    } else if digit == 8 {
        "8"
    } else {
        "9"
    }
}

/// Appends `n` in decimal to `out`.
pub fn push_digits(out: &mut String, n: u32)
    ensures
        final(out)@ == old(out)@ + decimal_digits(n as nat),
    decreases n,
{
    if n >= 10 {
        push_digits(out, n / 10);
        out.append(digit_str(n % 10));
        assert(out@ =~= old(out)@ + (decimal_digits((n / 10) as nat) + digit_text(
            (n % 10) as nat,
        )));
    } else {
        out.append(digit_str(n));
    }
}

/// Appends `value` in decimal to `out`.
pub fn push_decimal(out: &mut String, value: i32)
    ensures
        final(out)@ == old(out)@ + decimal(value as int),
{
    if value < 0 {
        let magnitude: u32 = (-(value as i64)) as u32;
        out.append("-");
        push_digits(out, magnitude);
        assert(out@ =~= old(out)@ + ("-"@ + decimal_digits(magnitude as nat)));
    } else {
        push_digits(out, value as u32);
    }
}

/// `value` in decimal.
pub fn format_decimal(value: i32) -> (text: String)
    ensures
        text@ == decimal(value as int),
{
    let mut text = String::new();
    push_decimal(&mut text, value);
    assert(text@ =~= decimal(value as int));
    text
}

} // verus!
