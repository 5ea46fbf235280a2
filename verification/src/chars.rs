//! ASCII character classes used by the lexical rules.
//!
//! Classification is deliberately ASCII-based: a character outside these
//! classes is never silently accepted, whatever its Unicode category.

use vstd::prelude::*;

verus! {

/// An ASCII decimal digit, `'0'` through `'9'`.
pub open spec fn is_digit(c: char) -> bool {
    48 <= c as u32 && c as u32 <= 57
}

/// An ASCII whitespace character: space, tab, newline, carriage return or
/// form feed.
pub open spec fn is_whitespace(c: char) -> bool {
    c == ' ' || c == '\t' || c == '\n' || c == '\r' || c == '\x0C'
}

/// An ASCII letter or digit.
pub open spec fn is_alphanumeric(c: char) -> bool {
    is_digit(c) || (65 <= c as u32 && c as u32 <= 90) || (97 <= c as u32 && c as u32 <= 122)
}

/// An ASCII punctuation character: any graphic character that is not a
/// letter or a digit.
pub open spec fn is_punctuation(c: char) -> bool {
    (33 <= c as u32 && c as u32 <= 47) || (58 <= c as u32 && c as u32 <= 64) || (91 <= c as u32
        && c as u32 <= 96) || (123 <= c as u32 && c as u32 <= 126)
}

/// A character acceptable inside a comment: anything graphic, or whitespace
/// other than the newline that ends the comment.
pub open spec fn is_comment_char(c: char) -> bool {
    is_alphanumeric(c) || is_punctuation(c) || (is_whitespace(c) && c != '\n')
}

/// Runtime check for [`is_digit`].
pub fn check_digit(c: char) -> (r: bool)
    ensures
        r == is_digit(c),
{
    let n = c as u32;
    48 <= n && n <= 57
}

/// Runtime check for [`is_whitespace`].
pub fn check_whitespace(c: char) -> (r: bool)
    ensures
        r == is_whitespace(c),
{
    c == ' ' || c == '\t' || c == '\n' || c == '\r' || c == '\x0C'
}

/// Runtime check for [`is_alphanumeric`].
pub fn check_alphanumeric(c: char) -> (r: bool)
    ensures
        r == is_alphanumeric(c),
{
    let n = c as u32;
    (48 <= n && n <= 57) || (65 <= n && n <= 90) || (97 <= n && n <= 122)
}

/// Runtime check for [`is_punctuation`].
pub fn check_punctuation(c: char) -> (r: bool)
    ensures
        r == is_punctuation(c),
{
    let n = c as u32;
    (33 <= n && n <= 47) || (58 <= n && n <= 64) || (91 <= n && n <= 96) || (123 <= n && n <= 126)
}

/// Runtime check for [`is_comment_char`].
pub fn check_comment_char(c: char) -> (r: bool)
    ensures
        r == is_comment_char(c),
{
    check_alphanumeric(c) || check_punctuation(c) || (check_whitespace(c) && c != '\n')
}

} // verus!
