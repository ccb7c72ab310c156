//! The tokens that a form control hands over, and what each stands for.

use crate::model::{AirType, Format, Overlay};
use vstd::prelude::*;

verus! {

/// Whether `s` holds exactly the characters of the token `lit`.
pub fn is_token(s: &String, lit: &str) -> (b: bool)
    ensures
        b == (s@ == lit@),
{
    let t = String::from_str(lit);
    *s == t
}

/// The airspace type that a token names as a mapping target. Only these
/// seven tokens name one; every other text names none.
pub open spec fn airtype_of(token: Seq<char>) -> Option<AirType> {
    if token == "classd"@ {
        Some(AirType::ClassD)
    } else if token == "classf"@ {
        Some(AirType::ClassF)
    } else if token == "classg"@ {
        Some(AirType::ClassG)
    } else if token == "ctr"@ {
        Some(AirType::Ctr)
    } else if token == "danger"@ {
        Some(AirType::Danger)
    } else if token == "restricted"@ {
        Some(AirType::Restricted)
    } else if token == "gsec"@ {
        Some(AirType::Gliding)
    } else {
        None
    }
}

/// The overlay that a token names, if it names one.
pub open spec fn overlay_of(token: Seq<char>) -> Option<Overlay> {
    if token == "fl195"@ {
        Some(Overlay::FL195)
    } else if token == "fl105"@ {
        Some(Overlay::FL105)
    } else if token == "atzdz"@ {
        Some(Overlay::AtzDz)
    } else {
        None
    }
}

/// The output format that a token names; any unknown token stands for
/// the OpenAir format.
pub open spec fn format_of(token: Seq<char>) -> Format {
    if token == "ratonly"@ {
        Format::RatOnly
    } else if token == "competition"@ {
        Format::Competition
    } else {
        Format::OpenAir
    }
}

/// Whether `c` is one of the ten decimal digits.
pub open spec fn is_digit(c: char) -> bool {
    '0' <= c <= '9'
}

/// The number that a digit stands for; zero for any other character.
pub open spec fn digit_value(c: char) -> nat {
    if is_digit(c) {
        (c as int - '0' as int) as nat
    } else {
        0
    }
}

/// The number that a sequence of digits writes in base ten.
pub open spec fn decimal_value(digits: Seq<char>) -> nat
    decreases digits.len(),
{
    if digits.len() == 0 {
        0
    } else {
        decimal_value(digits.drop_last()) * 10 + digit_value(digits.last())
    }
}

/// The digits of a number's text: the text itself, less one leading plus sign.
pub open spec fn unsigned_digits(text: Seq<char>) -> Seq<char> {
    if text.len() > 0 && text[0] == '+' {
        text.subrange(1, text.len() as int)
    } else {
        text
    }
}

/// The level that a text writes: an optional plus sign, then one or more
/// decimal digits and nothing else, whose value fits in sixteen bits.
/// Any other text writes no level.
pub open spec fn level_of(text: Seq<char>) -> Option<u16> {
    let digits = unsigned_digits(text);
    if digits.len() > 0 && (forall|i: int| 0 <= i < digits.len() ==> is_digit(#[trigger] digits[i]))
        && decimal_value(digits) <= 65535 {
        Some(decimal_value(digits) as u16)
    } else {
        None
    }
}

/// A prefix of a digit sequence writes no greater a number than the whole.
pub proof fn lemma_decimal_prefix(digits: Seq<char>, k: int)
    requires
        0 <= k <= digits.len(),
    ensures
        decimal_value(digits.subrange(0, k)) <= decimal_value(digits),
    decreases digits.len(),
{
    if k < digits.len() {
        lemma_decimal_prefix(digits.drop_last(), k);
        assert(digits.drop_last().subrange(0, k) =~= digits.subrange(0, k));
    } else {
        assert(digits.subrange(0, k) =~= digits);
    }
}

/// Default mapping value to airspace type.
pub fn get_airtype(value: &str) -> (r: Option<AirType>)
    ensures
        r == airtype_of(value@),
{
    let v = String::from_str(value);
    if is_token(&v, "classd") {
        Some(AirType::ClassD)
    } else if is_token(&v, "classf") {
        Some(AirType::ClassF)
    } else if is_token(&v, "classg") {
        Some(AirType::ClassG)
    } else if is_token(&v, "ctr") {
        Some(AirType::Ctr)
    } else if is_token(&v, "danger") {
        Some(AirType::Danger)
    } else if is_token(&v, "restricted") {
        Some(AirType::Restricted)
    } else if is_token(&v, "gsec") {
        Some(AirType::Gliding)
    } else {
        None
    }
}

/// Overlay value to altitude layer overlay.
pub fn get_overlay(value: &str) -> (r: Option<Overlay>)
    ensures
        r == overlay_of(value@),
{
    let v = String::from_str(value);
    if is_token(&v, "fl195") {
        Some(Overlay::FL195)
    } else if is_token(&v, "fl105") {
        Some(Overlay::FL105)
    } else if is_token(&v, "atzdz") {
        Some(Overlay::AtzDz)
    } else {
        None
    }
}

/// Format value to output format.
pub fn get_format(value: &str) -> (r: Format)
    ensures
        r == format_of(value@),
{
    let v = String::from_str(value);
    if is_token(&v, "ratonly") {
        Format::RatOnly
    } else if is_token(&v, "competition") {
        Format::Competition
    } else {
        Format::OpenAir
    }
}

/// Reads a level from its decimal text.
pub fn parse_level(value: &str) -> (r: Option<u16>)
    ensures
        r == level_of(value@),
{
    let ghost digits = unsigned_digits(value@);
    if !value.is_ascii() {
        proof {
            let i = choose|i: int|
                0 <= i < value@.len() && !('\0' <= #[trigger] value@[i] <= '\u{7f}');
            if digits.len() == value@.len() {
                assert(!is_digit(digits[i]));
            } else {
                assert(i >= 1);
                assert(!is_digit(digits[i - 1]));
            }
        }
        return None;
    }
    let n = value.unicode_len();
    if n == 0 {
        return None;
    }
    let start: usize = if value.get_ascii(0) == 43u8 {
        1
    } else {
        0
    };
    assert(digits == value@.subrange(start as int, n as int)) by {
        assert('+' as u8 == 43u8);
        assert(value@.subrange(0, n as int) =~= value@);
    }
    if start == n {
        return None;
    }
    let mut acc: u32 = 0;
    let mut i: usize = start;
    while i < n
        invariant
            start <= i <= n,
            n == value@.len(),
            value.is_ascii(),
            digits == unsigned_digits(value@),
            digits == value@.subrange(start as int, n as int),
            forall|j: int| 0 <= j < i - start ==> is_digit(#[trigger] digits[j]),
            acc == decimal_value(digits.subrange(0, i - start)),
            acc <= 65535,
        decreases n - i,
    {
        let b: u8 = value.get_ascii(i);
        let ghost c = value@[i as int];
        assert(c == digits[i - start]);
        assert(b as int == c as int);
        assert(digits.subrange(0, i - start + 1).drop_last() =~= digits.subrange(0, i - start));
        assert(digits.subrange(0, i - start + 1).last() == c);
        if b < 48 || b > 57 {
            assert(!is_digit(digits[i - start]));
            return None;
        }
        let d: u32 = (b - 48) as u32;
        assert(d == digit_value(c));
        let next: u32 = acc * 10 + d;
        if next > 65535 {
            proof {
                lemma_decimal_prefix(digits, i - start + 1);
            }
            return None;
        }
        acc = next;
        i += 1;
    }
    assert(digits.subrange(0, n - start) =~= digits);
    Some(acc as u16)
}

} // verus!
