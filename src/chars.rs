//! Characters: conversions between text and characters, the character
//! classes of phone-number notation, and decimal digits.

use vstd::prelude::*;

verus! {

/// Relies on str::chars, collected into a Vec: the characters of the text in order.
#[verifier::external_body]
pub(crate) fn chars_of(s: &str) -> (r: Vec<char>)
    ensures
        r@ == s@,
{
    s.chars().collect()
}

/// Relies on FromIterator<&char> for String: the text made of the characters in order.
#[verifier::external_body]
pub(crate) fn text_of(v: &[char]) -> (r: String)
    ensures
        r@ == v@,
{
    v.iter().collect()
}

pub open spec fn ascii_digit(c: char) -> bool {
    '0' <= c <= '9'
}

pub open spec fn ascii_letter(c: char) -> bool {
    ('a' <= c <= 'z') || ('A' <= c <= 'Z')
}

pub open spec fn plus_sign(c: char) -> bool {
    c == '+' || c == '\u{FF0B}'
}

/// The code point of the zero of the decimal-digit block holding `v`, for
/// the Arabic-Indic, Persian, N'Ko, Devanagari, Bengali, Gurmukhi, Gujarati,
/// Oriya, Tamil, Telugu, Kannada, Malayalam, Thai, Lao and full-width digits.
pub open spec fn digit_block(v: u32) -> Option<u32> {
    if 0x0660 <= v <= 0x0669 { Some(0x0660u32) }
    else if 0x06F0 <= v <= 0x06F9 { Some(0x06F0u32) }
    else if 0x07C0 <= v <= 0x07C9 { Some(0x07C0u32) }
    else if 0x0966 <= v <= 0x096F { Some(0x0966u32) }
    else if 0x09E6 <= v <= 0x09EF { Some(0x09E6u32) }
    else if 0x0A66 <= v <= 0x0A6F { Some(0x0A66u32) }
    else if 0x0AE6 <= v <= 0x0AEF { Some(0x0AE6u32) }
    else if 0x0B66 <= v <= 0x0B6F { Some(0x0B66u32) }
    else if 0x0BE6 <= v <= 0x0BEF { Some(0x0BE6u32) }
    else if 0x0C66 <= v <= 0x0C6F { Some(0x0C66u32) }
    else if 0x0CE6 <= v <= 0x0CEF { Some(0x0CE6u32) }
    else if 0x0D66 <= v <= 0x0D6F { Some(0x0D66u32) }
    else if 0x0E50 <= v <= 0x0E59 { Some(0x0E50u32) }
    else if 0x0ED0 <= v <= 0x0ED9 { Some(0x0ED0u32) }
    else if 0xFF10 <= v <= 0xFF19 { Some(0xFF10u32) }
    else { None }
}

/// The value of a decimal digit: ASCII, or of one of the blocks above.
pub open spec fn digit_value(c: char) -> Option<u8> {
    if ascii_digit(c) {
        Some((c as u32 - '0' as u32) as u8)
    } else {
        match digit_block(c as u32) {
            Some(z) => Some((c as u32 - z) as u8),
            None => None,
        }
    }
}

/// The ASCII character of a digit value.
pub open spec fn digit_char(d: u8) -> char {
    if d == 0 { '0' } else if d == 1 { '1' } else if d == 2 { '2' } else if d == 3 { '3' }
    else if d == 4 { '4' } else if d == 5 { '5' } else if d == 6 { '6' } else if d == 7 { '7' }
    else if d == 8 { '8' } else { '9' }
}

/// The digit that a letter stands for on a telephone keypad.
pub open spec fn keypad(c: char) -> Option<char> {
    let u = if 'a' <= c <= 'z' { (c as u32 - 32) as u32 } else { c as u32 };
    if !(0x41 <= u <= 0x5A) { None }
    else if u <= 0x43 { Some('2') }
    else if u <= 0x46 { Some('3') }
    else if u <= 0x49 { Some('4') }
    else if u <= 0x4C { Some('5') }
    else if u <= 0x4F { Some('6') }
    else if u <= 0x53 { Some('7') }
    else if u <= 0x56 { Some('8') }
    else { Some('9') }
}

/// The punctuation that may stand between the digits of a number.
pub open spec fn punctuation(c: char) -> bool {
    ||| c == '-' || c == 'x'
    ||| ('\u{2010}' <= c <= '\u{2015}')
    ||| c == '\u{2212}' || c == '\u{30FC}'
    ||| ('\u{FF0D}' <= c <= '\u{FF0F}')
    ||| c == ' ' || c == '\u{00A0}' || c == '\u{00AD}' || c == '\u{200B}' || c == '\u{2060}' || c == '\u{3000}'
    ||| c == '(' || c == ')' || c == '\u{FF08}' || c == '\u{FF09}' || c == '\u{FF3B}' || c == '\u{FF3D}'
    ||| c == '.' || c == '[' || c == ']' || c == '/'
    ||| c == '~' || c == '\u{2053}' || c == '\u{223C}' || c == '\u{FF5E}'
}

pub fn is_ascii_digit(c: char) -> (r: bool)
    ensures
        r == ascii_digit(c),
{
    '0' <= c && c <= '9'
}

pub fn is_ascii_letter(c: char) -> (r: bool)
    ensures
        r == ascii_letter(c),
{
    ('a' <= c && c <= 'z') || ('A' <= c && c <= 'Z')
}

pub fn is_plus(c: char) -> (r: bool)
    ensures
        r == plus_sign(c),
{
    c == '+' || c == '\u{FF0B}'
}

pub fn is_punctuation(c: char) -> (r: bool)
    ensures
        r == punctuation(c),
{
    c == '-' || c == 'x' || ('\u{2010}' <= c && c <= '\u{2015}') || c == '\u{2212}' || c == '\u{30FC}'
        || ('\u{FF0D}' <= c && c <= '\u{FF0F}') || c == ' ' || c == '\u{00A0}' || c == '\u{00AD}'
        || c == '\u{200B}' || c == '\u{2060}' || c == '\u{3000}' || c == '(' || c == ')'
        || c == '\u{FF08}' || c == '\u{FF09}' || c == '\u{FF3B}' || c == '\u{FF3D}' || c == '.'
        || c == '[' || c == ']' || c == '/' || c == '~' || c == '\u{2053}' || c == '\u{223C}'
        || c == '\u{FF5E}'
}

fn block_of(v: u32) -> (r: Option<u32>)
    ensures
        r == digit_block(v),
{
    if 0x0660 <= v && v <= 0x0669 { Some(0x0660) }
    else if 0x06F0 <= v && v <= 0x06F9 { Some(0x06F0) }
    else if 0x07C0 <= v && v <= 0x07C9 { Some(0x07C0) }
    else if 0x0966 <= v && v <= 0x096F { Some(0x0966) }
    else if 0x09E6 <= v && v <= 0x09EF { Some(0x09E6) }
    else if 0x0A66 <= v && v <= 0x0A6F { Some(0x0A66) }
    else if 0x0AE6 <= v && v <= 0x0AEF { Some(0x0AE6) }
    else if 0x0B66 <= v && v <= 0x0B6F { Some(0x0B66) }
    else if 0x0BE6 <= v && v <= 0x0BEF { Some(0x0BE6) }
    else if 0x0C66 <= v && v <= 0x0C6F { Some(0x0C66) }
    else if 0x0CE6 <= v && v <= 0x0CEF { Some(0x0CE6) }
    else if 0x0D66 <= v && v <= 0x0D6F { Some(0x0D66) }
    else if 0x0E50 <= v && v <= 0x0E59 { Some(0x0E50) }
    else if 0x0ED0 <= v && v <= 0x0ED9 { Some(0x0ED0) }
    else if 0xFF10 <= v && v <= 0xFF19 { Some(0xFF10) }
    else { None }
}

/// The value of a decimal digit, ASCII or of one of the scripts listed above.
pub fn dec_digit_value(c: char) -> (r: Option<u8>)
    ensures
        r == digit_value(c),
        r matches Some(d) ==> d <= 9,
{
    if '0' <= c && c <= '9' {
        Some((c as u32 - '0' as u32) as u8)
    } else {
        match block_of(c as u32) {
            Some(z) => Some((c as u32 - z) as u8),
            None => None,
        }
    }
}

pub fn ascii_of(d: u8) -> (r: char)
    ensures
        r == digit_char(d),
{
    if d == 0 { '0' } else if d == 1 { '1' } else if d == 2 { '2' } else if d == 3 { '3' }
    else if d == 4 { '4' } else if d == 5 { '5' } else if d == 6 { '6' } else if d == 7 { '7' }
    else if d == 8 { '8' } else { '9' }
}

/// The digit that a letter stands for on a telephone keypad.
pub fn keypad_digit(c: char) -> (r: Option<char>)
    ensures
        r == keypad(c),
{
    let u: u32 = if 'a' <= c && c <= 'z' { c as u32 - 32 } else { c as u32 };
    if !(0x41 <= u && u <= 0x5A) { None }
    else if u <= 0x43 { Some('2') }
    else if u <= 0x46 { Some('3') }
    else if u <= 0x49 { Some('4') }
    else if u <= 0x4C { Some('5') }
    else if u <= 0x4F { Some('6') }
    else if u <= 0x53 { Some('7') }
    else if u <= 0x56 { Some('8') }
    else { Some('9') }
}

} // verus!
