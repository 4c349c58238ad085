//! Character classes used by the WKT scanners. The Unicode digit and word
//! classes are the ones of the `regex` crate (`\d` and `\w`).
use vstd::prelude::*;
use crate::text::{is_white_space, is_white_space_char};

verus! {

/// Membership in the `regex` crate's Unicode `\d` class (general category Nd).
pub uninterp spec fn unicode_decimal_digit(c: char) -> bool;

/// Membership in the `regex` crate's Unicode `\w` class.
pub uninterp spec fn unicode_word_char(c: char) -> bool;

/// Calls `regex::Regex::is_match` with the one-character pattern `\A\d\z` on
/// `c`. The contract claims only that the answer is a fixed function of `c`.
#[verifier::external_body]
fn regex_decimal_digit(c: char) -> (b: bool)
    ensures
        b == unicode_decimal_digit(c),
{
    let text = c.to_string();
    regex::Regex::new(r"\A\d\z").unwrap().is_match(&text)
}

/// Calls `regex::Regex::is_match` with the one-character pattern `\A\w\z` on
/// `c`. The contract claims only that the answer is a fixed function of `c`.
#[verifier::external_body]
fn regex_word_char(c: char) -> (b: bool)
    ensures
        b == unicode_word_char(c),
{
    let text = c.to_string();
    regex::Regex::new(r"\A\w\z").unwrap().is_match(&text)
}

/// The classes of single characters that the WKT scanners repeat.
#[derive(Clone, Copy, Debug, PartialEq, Eq, Structural)]
pub enum CharClass {
    /// `\s`: Unicode white space.
    WhiteSpace,
    /// `\d`: Unicode decimal digit.
    Digit,
    /// `\w`: Unicode word character.
    Word,
    /// `[^"]`
    NotQuote,
    /// `[^\]]`
    NotCloseBracket,
    /// `[0-9.eE+-]`
    Numeric,
    /// `[0-9]`
    AsciiDigit,
}

pub open spec fn in_class(cls: CharClass, c: char) -> bool {
    match cls {
        CharClass::WhiteSpace => is_white_space(c),
        CharClass::Digit => unicode_decimal_digit(c),
        CharClass::Word => unicode_word_char(c),
        CharClass::NotQuote => c != '"',
        CharClass::NotCloseBracket => c != ']',
        CharClass::Numeric => ('0' <= c <= '9') || c == '.' || c == 'e' || c == 'E' || c == '+'
            || c == '-',
        CharClass::AsciiDigit => '0' <= c <= '9',
    }
}

/// Whether `c` belongs to `cls`.
pub fn class_contains(cls: CharClass, c: char) -> (b: bool)
    ensures
        b == in_class(cls, c),
{
    match cls {
        CharClass::WhiteSpace => is_white_space_char(c),
        CharClass::Digit => regex_decimal_digit(c),
        CharClass::Word => regex_word_char(c),
        CharClass::NotQuote => c != '"',
        CharClass::NotCloseBracket => c != ']',
        CharClass::Numeric => ('0' <= c && c <= '9') || c == '.' || c == 'e' || c == 'E' || c
            == '+' || c == '-',
        CharClass::AsciiDigit => '0' <= c && c <= '9',
    }
}

} // verus!
