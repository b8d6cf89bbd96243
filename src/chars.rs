//! Character classes used by the lexer.
use vstd::prelude::*;

verus! {

/// What `char::is_whitespace` answers for a character.
pub uninterp spec fn whitespace_class(c: char) -> bool;

/// What `char::is_alphabetic` answers for a character.
pub uninterp spec fn alphabetic_class(c: char) -> bool;

/// What `char::is_alphanumeric` answers for a character.
pub uninterp spec fn alphanumeric_class(c: char) -> bool;

/// An ASCII letter.
pub open spec fn ascii_letter(c: char) -> bool {
    ('a' <= c && c <= 'z') || ('A' <= c && c <= 'Z')
}

/// An ASCII digit.
pub open spec fn ascii_digit(c: char) -> bool {
    '0' <= c && c <= '9'
}

/// Relies on `char::is_whitespace`: Unicode `White_Space`, a function of the
/// character alone; among ASCII characters, the space and tab to carriage
/// return.
#[verifier::external_body]
pub(crate) fn is_whitespace(c: char) -> (r: bool)
    ensures
        r == whitespace_class(c),
        (c as u32) < 128 ==> (r <==> (c == ' ' || ('\t' <= c && c <= '\r'))),
{
    c.is_whitespace()
}

/// Relies on `char::is_alphabetic`: Unicode `Alphabetic`, a function of the
/// character alone; among ASCII characters, the letters.
#[verifier::external_body]
pub(crate) fn is_alphabetic(c: char) -> (r: bool)
    ensures
        r == alphabetic_class(c),
        (c as u32) < 128 ==> (r <==> ascii_letter(c)),
{
    c.is_alphabetic()
}

/// Relies on `char::is_alphanumeric`: `Alphabetic` or `Numeric`, a function of
/// the character alone; among ASCII characters, the letters and digits.
#[verifier::external_body]
pub(crate) fn is_alphanumeric(c: char) -> (r: bool)
    ensures
        r == alphanumeric_class(c),
        (c as u32) < 128 ==> (r <==> (ascii_letter(c) || ascii_digit(c))),
{
    c.is_alphanumeric()
}

/// An identifier character: alphanumeric or an underscore.
pub open spec fn ident_char(c: char) -> bool {
    alphanumeric_class(c) || c == '_'
}

/// Whether `c` may continue an identifier.
pub fn is_ident_char(c: char) -> (r: bool)
    ensures
        r == ident_char(c),
        (c as u32) < 128 ==> (r <==> (ascii_letter(c) || ascii_digit(c) || c == '_')),
{
    c == '_' || is_alphanumeric(c)
}

/// Whether `c` is skipped as whitespace between tokens.
pub fn is_space(c: char) -> (r: bool)
    ensures
        r == whitespace_class(c),
        (c as u32) < 128 ==> (r <==> (c == ' ' || ('\t' <= c && c <= '\r'))),
{
    is_whitespace(c)
}

/// A character that starts an identifier: a letter or an underscore.
pub open spec fn ident_start(c: char) -> bool {
    c == 'n' || c == 't' || c == 'f' || c == '_' || alphabetic_class(c)
}

/// Whether `c` starts an identifier.
pub fn is_ident_start(c: char) -> (r: bool)
    ensures
        r == ident_start(c),
        (c as u32) < 128 ==> (r <==> (ascii_letter(c) || c == '_')),
{
    c == 'n' || c == 't' || c == 'f' || c == '_' || is_alphabetic(c)
}

/// A boundary after a word: the end of input, or a character that cannot
/// continue an identifier.
pub open spec fn non_ident_boundary(c: Option<char>) -> bool {
    match c {
        None => true,
        Some(k) => !ident_char(k),
    }
}

/// Whether `c` ends an identifier.
pub fn is_non_ident_char(c: Option<char>) -> (r: bool)
    ensures
        r == non_ident_boundary(c),
{
    match c {
        None => true,
        Some(k) => !is_ident_char(k),
    }
}

} // verus!
