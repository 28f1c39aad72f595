//! The free-text query buffer: character editing and the caret column
//! that depends on the query's displayed width.

use vstd::prelude::*;
use unicode_width::UnicodeWidthStr;

verus! {

/// Displayed column width of a sequence of characters, as a terminal
/// renders it.  Multi-column characters make it differ from the
/// character count.
pub uninterp spec fn display_width(s: Seq<char>) -> usize;

/// Relies on `unicode_width::UnicodeWidthStr::width`: the displayed
/// width of a string, a function of its character sequence alone; the
/// empty string has width 0.
#[verifier::external_body]
pub(crate) fn text_width(s: &String) -> (r: usize)
    ensures
        r == display_width(s@),
        s@.len() == 0 ==> r == 0,
{
    s.as_str().width()
}

/// Relies on `String::push` of std: appends one character at the end of
/// the string.
#[verifier::external_body]
pub(crate) fn push_char(s: &mut String, c: char)
    ensures
        final(s)@ == old(s)@.push(c),
{
    s.push(c);
}

/// Relies on `String::pop` of std: removes and returns the last
/// character; an empty string stays empty and yields nothing.
#[verifier::external_body]
pub(crate) fn pop_char(s: &mut String) -> (r: Option<char>)
    ensures
        old(s)@.len() == 0 ==> r is None && final(s)@ == old(s)@,
        old(s)@.len() > 0 ==> r == Some(old(s)@.last()) && final(s)@ == old(s)@.drop_last(),
{
    s.pop()
}

/// The caret column while text entry is active: a prompt offset of 2
/// plus the displayed width of the query, wrapped to the 16-bit column
/// range of the terminal protocol.
pub open spec fn cursor_col_spec(w: int) -> int {
    (2 + (w % 0x10000)) % 0x10000
}

} // verus!
