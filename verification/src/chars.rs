//! Character checks that fail with a typed error, ASCII case conversion and
//! digit values.

use vstd::prelude::*;
use crate::text::push_char;

verus! {

/// Why a character was refused; each variant carries the character.
#[derive(Debug, Clone, Copy, PartialEq, Eq)]
pub enum CharError {
    NotAscii(char),
    NotDigit(char),
    NotBase16(char),
    NotLetter(char),
    NotPrintable(char),
}

/// An ASCII character: code point below 128.
pub open spec fn is_ascii_char(c: char) -> bool {
    (c as u32) < 128
}

/// A decimal digit, `'0'` to `'9'`.
pub open spec fn is_decimal_digit(c: char) -> bool {
    '0' <= c <= '9'
}

/// The value of a base-16 digit (`0`-`9`, `a`-`f`, `A`-`F`), or `None`.
pub open spec fn hex_value(c: char) -> Option<u32> {
    if '0' <= c <= '9' {
        Some((c as u32 - 48) as u32)
    } else if 'a' <= c <= 'f' {
        Some((c as u32 - 87) as u32)
    } else if 'A' <= c <= 'F' {
        Some((c as u32 - 55) as u32)
    } else {
        None
    }
}

/// A visible ASCII character, `'!'` to `'~'`.
pub open spec fn is_ascii_graphic_char(c: char) -> bool {
    '!' <= c <= '~'
}

/// ASCII white space: space, tab, line feed, form feed, carriage return.
pub open spec fn is_ascii_white(c: char) -> bool {
    c == ' ' || c == '\t' || c == '\n' || c == '\x0C' || c == '\r'
}

/// The ASCII upper-case form of `c`; characters other than `'a'` to `'z'`
/// are kept.
pub open spec fn ascii_upper(c: char) -> char {
    if 'a' <= c <= 'z' {
        ((c as u32) - 32) as char
    } else {
        c
    }
}

/// The ASCII lower-case form of `c`; characters other than `'A'` to `'Z'`
/// are kept.
pub open spec fn ascii_lower(c: char) -> char {
    if 'A' <= c <= 'Z' {
        ((c as u32) + 32) as char
    } else {
        c
    }
}

/// Whether `c` has the Unicode `Alphabetic` property, as std's
/// `char::is_alphabetic` decides it.
pub uninterp spec fn unicode_alphabetic(c: char) -> bool;

/// An ASCII letter, `'a'` to `'z'` or `'A'` to `'Z'`.
pub open spec fn is_ascii_letter(c: char) -> bool {
    ('a' <= c <= 'z') || ('A' <= c <= 'Z')
}

/// std's `char::is_alphabetic`. Trusted: the contract names the result as
/// `unicode_alphabetic(c)` and states the part of the Unicode `Alphabetic`
/// property that lies in ASCII, where it holds of the letters alone; which
/// characters beyond ASCII have the property is left to the Unicode tables
/// std carries.
#[verifier::external_body]
fn char_is_alphabetic(c: char) -> (r: bool)
    ensures
        r == unicode_alphabetic(c),
        is_ascii_char(c) ==> (r <==> is_ascii_letter(c)),
{
    c.is_alphabetic()
}

fn char_is_ascii(c: char) -> (r: bool)
    ensures
        r == is_ascii_char(c),
{
    (c as u32) < 128
}

fn char_is_decimal(c: char) -> (r: bool)
    ensures
        r == is_decimal_digit(c),
{
    '0' <= c && c <= '9'
}

fn char_hex_value(c: char) -> (r: Option<u32>)
    ensures
        r == hex_value(c),
{
    if '0' <= c && c <= '9' {
        Some(c as u32 - 48)
    } else if 'a' <= c && c <= 'f' {
        Some(c as u32 - 87)
    } else if 'A' <= c && c <= 'F' {
        Some(c as u32 - 55)
    } else {
        None
    }
}

fn char_to_upper(c: char) -> (r: char)
    ensures
        r == ascii_upper(c),
{
    if 'a' <= c && c <= 'z' {
        ((c as u8) - 32) as char
    } else {
        c
    }
}

pub(crate) fn lower_of(c: char) -> (r: char)
    ensures
        r == ascii_lower(c),
{
    if 'A' <= c && c <= 'Z' {
        ((c as u8) + 32) as char
    } else {
        c
    }
}


/// `Ok(())` for an ASCII character, else `NotAscii(c)`.
pub fn check_ascii(c: char) -> (r: Result<(), CharError>)
    ensures
        r == (if is_ascii_char(c) {
            Ok(())
        } else {
            Err(CharError::NotAscii(c))
        }),
{
    if char_is_ascii(c) {
        Ok(())
    } else {
        Err(CharError::NotAscii(c))
    }
}

/// `Ok(())` for a decimal digit, else `NotDigit(c)`.
pub fn check_digit(c: char) -> (r: Result<(), CharError>)
    ensures
        r == (if is_decimal_digit(c) {
            Ok(())
        } else {
            Err(CharError::NotDigit(c))
        }),
{
    if char_is_decimal(c) {
        Ok(())
    } else {
        Err(CharError::NotDigit(c))
    }
}

/// `Ok(())` for a base-16 digit, else `NotBase16(c)`.
pub fn check_base16(c: char) -> (r: Result<(), CharError>)
    ensures
        r == (if hex_value(c) is Some {
            Ok(())
        } else {
            Err(CharError::NotBase16(c))
        }),
{
    if char_hex_value(c).is_some() {
        Ok(())
    } else {
        Err(CharError::NotBase16(c))
    }
}

/// `Ok(())` for a character with the Unicode `Alphabetic` property, else
/// `NotLetter(c)`; among ASCII characters, the letters are accepted.
pub fn check_letter(c: char) -> (r: Result<(), CharError>)
    ensures
        r == (if unicode_alphabetic(c) {
            Ok(())
        } else {
            Err(CharError::NotLetter(c))
        }),
        is_ascii_char(c) ==> (r is Ok <==> is_ascii_letter(c)),
{
    if char_is_alphabetic(c) {
        Ok(())
    } else {
        Err(CharError::NotLetter(c))
    }
}

/// `Ok(())` for a visible ASCII character or ASCII white space, else
/// `NotPrintable(c)`.
pub fn check_printable(c: char) -> (r: Result<(), CharError>)
    ensures
        r == (if is_ascii_graphic_char(c) || is_ascii_white(c) {
            Ok(())
        } else {
            Err(CharError::NotPrintable(c))
        }),
{
    let graphic = '!' <= c && c <= '~';
    let white = c == ' ' || c == '\t' || c == '\n' || c == '\x0C' || c == '\r';
    if graphic || white {
        Ok(())
    } else {
        Err(CharError::NotPrintable(c))
    }
}

/// The ASCII upper-case form of an ASCII character, else `NotAscii(c)`.
pub fn to_uppercase(c: char) -> (r: Result<char, CharError>)
    ensures
        r == (if is_ascii_char(c) {
            Ok(ascii_upper(c))
        } else {
            Err(CharError::NotAscii(c))
        }),
{
    let e = check_ascii(c);
    match e {
        Ok(_) => Ok(char_to_upper(c)),
        Err(e) => Err(e),
    }
}

/// The ASCII lower-case form of an ASCII character, else `NotAscii(c)`.
pub fn to_lowercase(c: char) -> (r: Result<char, CharError>)
    ensures
        r == (if is_ascii_char(c) {
            Ok(ascii_lower(c))
        } else {
            Err(CharError::NotAscii(c))
        }),
{
    let e = check_ascii(c);
    match e {
        Ok(_) => Ok(lower_of(c)),
        Err(e) => Err(e),
    }
}

/// The value of a decimal digit; `NotAscii(c)` for a character beyond
/// ASCII, `NotDigit(c)` for any other non-digit.
pub fn char_to_number(c: char) -> (r: Result<u32, CharError>)
    ensures
        r == (if !is_ascii_char(c) {
            Err(CharError::NotAscii(c))
        } else if !is_decimal_digit(c) {
            Err(CharError::NotDigit(c))
        } else {
            Ok((c as u32 - 48) as u32)
        }),
{
    let e = check_ascii(c);
    match e {
        Ok(_) => {
            let f = check_digit(c);
            match f {
                Ok(_) => Ok(c as u32 - 48),
                Err(e) => Err(e),
            }
        },
        Err(e) => Err(e),
    }
}

/// The value of a base-16 digit; `NotAscii(c)` for a character beyond
/// ASCII, `NotBase16(c)` for any other non-digit.
pub fn char_to_number_hex(c: char) -> (r: Result<u32, CharError>)
    ensures
        r == (if !is_ascii_char(c) {
            Err(CharError::NotAscii(c))
        } else {
            match hex_value(c) {
                Some(v) => Ok(v),
                None => Err(CharError::NotBase16(c)),
            }
        }),
{
    let e = check_ascii(c);
    match e {
        Ok(_) => {
            let f = check_base16(c);
            match f {
                Ok(_) => Ok(char_hex_value(c).unwrap()),
                Err(e) => Err(e),
            }
        },
        Err(e) => Err(e),
    }
}

/// On a decimal digit, the base-16 conversion gives the same value as the
/// decimal one.
pub proof fn lemma_hex_agrees_on_decimal_digits(c: char)
    requires
        is_decimal_digit(c),
    ensures
        hex_value(c) == Some((c as u32 - 48) as u32),
{
}

/// Every value that a successful digit conversion returns is a digit of its
/// base: below 10 for decimal, below 16 for base 16.
pub proof fn lemma_digit_values_in_base(c: char)
    ensures
        is_decimal_digit(c) ==> (c as u32 - 48) < 10,
        hex_value(c) matches Some(v) ==> v < 16,
{
}

/// For an ASCII character, converting to upper case and then to lower case
/// gives the lower-case form, and the other way round; each conversion is
/// idempotent, and both keep the character ASCII.
pub proof fn lemma_ascii_case_roundtrip(c: char)
    requires
        is_ascii_char(c),
    ensures
        ascii_lower(ascii_upper(c)) == ascii_lower(c),
        ascii_upper(ascii_lower(c)) == ascii_upper(c),
        ascii_upper(ascii_upper(c)) == ascii_upper(c),
        ascii_lower(ascii_lower(c)) == ascii_lower(c),
        is_ascii_char(ascii_upper(c)),
        is_ascii_char(ascii_lower(c)),
{
}


/// What follows the character in the report of an error.
pub open spec fn report_tail(e: CharError) -> Seq<char> {
    match e {
        CharError::NotAscii(_) => " is not an ASCII character"@,
        CharError::NotBase16(_) => " is not an in Base16"@,
        CharError::NotDigit(_) => " is not a digit"@,
        CharError::NotLetter(_) => " is not a letter"@,
        CharError::NotPrintable(_) => " is not printable"@,
    }
}

/// The character that an error carries.
pub open spec fn error_char(e: CharError) -> char {
    match e {
        CharError::NotAscii(c) => c,
        CharError::NotBase16(c) => c,
        CharError::NotDigit(c) => c,
        CharError::NotLetter(c) => c,
        CharError::NotPrintable(c) => c,
    }
}

/// The report printed for an error, such as
/// "Error! é is not an ASCII character".
pub fn error_report(e: CharError) -> (r: String)
    ensures
        r@ == "Error! "@ + seq![error_char(e)] + report_tail(e),
{
    let mut r = String::from_str("Error! ");
    match e {
        CharError::NotAscii(c) => {
            push_char(&mut r, c);
            r.append(" is not an ASCII character");
        },
        CharError::NotBase16(c) => {
            push_char(&mut r, c);
            r.append(" is not an in Base16");
        },
        CharError::NotDigit(c) => {
            push_char(&mut r, c);
            r.append(" is not a digit");
        },
        CharError::NotLetter(c) => {
            push_char(&mut r, c);
            r.append(" is not a letter");
        },
        CharError::NotPrintable(c) => {
            push_char(&mut r, c);
            r.append(" is not printable");
        },
    }
    r
}


/// The base-16 digits are exactly `'0'`-`'9'`, `'a'`-`'f'` and `'A'`-`'F'`,
/// with values 0-9, 10-15 and 10-15; a letter digit has the same value in
/// either case, so the value never depends on ASCII case.
pub proof fn lemma_hex_digits_and_values(c: char)
    ensures
        (hex_value(c) is Some) <==> ((48 <= c as u32 <= 57) || (97 <= c as u32 <= 102) || (65
            <= c as u32 <= 70)),
        48 <= c as u32 <= 57 ==> hex_value(c) == Some((c as u32 - 48) as u32),
        97 <= c as u32 <= 102 ==> hex_value(c) == Some((c as u32 - 97 + 10) as u32),
        65 <= c as u32 <= 70 ==> hex_value(c) == Some((c as u32 - 65 + 10) as u32),
        hex_value(c) == hex_value(ascii_lower(c)),
        hex_value(c) == hex_value(ascii_upper(c)),
{
}

/// The characters `check_printable` accepts are exactly tab, line feed,
/// form feed, carriage return and the code points from space (32) to
/// tilde (126).
pub proof fn lemma_printable_set(c: char)
    ensures
        (is_ascii_graphic_char(c) || is_ascii_white(c)) <==> ({
            let u = c as u32;
            u == 9 || u == 10 || u == 12 || u == 13 || (32 <= u <= 126)
        }),
{
}

} // verus!
