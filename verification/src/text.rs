//! Small text operations that the other modules share.

use vstd::prelude::*;
use vstd::string::*;
use vstd::utf8::{encode_utf8, valid_utf8};

verus! {

/// Whether two pieces of text hold the same characters.
pub fn same_text(left: &str, right: &str) -> (same: bool)
    ensures
        same == (left@ == right@),
{
    let left_owned = String::from_str(left);
    let right_owned = String::from_str(right);
    left_owned == right_owned
}

/// The two pieces of text, one after the other.
pub fn join2(first: &str, second: &str) -> (text: String)
    ensures
        text@ == first@ + second@,
{
    let mut text = String::from_str(first);
    text.append(second);
    text
}

/// The three pieces of text, one after the other.
pub fn join3(first: &str, second: &str, third: &str) -> (text: String)
    ensures
        text@ == first@ + second@ + third@,
{
    let mut text = String::from_str(first);
    text.append(second);
    text.append(third);
    text
}

/// What the `{:?}` form of a string slice prints: the text between double quotes, with
/// quotes, backslashes, control characters and other unprintable characters escaped.
pub uninterp spec fn debug_text(text: Seq<char>) -> Seq<char>;

/// Formats `text` with std's `Debug` for `str`. The contract only names the result: it is
/// fixed by the characters of `text`, and nothing else is claimed of it.
#[verifier::external_body]
pub(crate) fn debug_quoted(text: &str) -> (quoted: String)
    ensures
        quoted@ == debug_text(text@),
{
    format!("{:?}", text)
}

/// What `str::trim` leaves of a line: the line without the white space at its two ends.
pub uninterp spec fn trimmed(line: Seq<char>) -> Seq<char>;

/// Calls `str::trim`. The contract only names the result, which is fixed by the
/// characters of `line`.
#[verifier::external_body]
pub(crate) fn trim(line: &str) -> (text: &str)
    ensures
        text@ == trimmed(line@),
{
    line.trim()
}

/// The text that `String::from_utf8_lossy` reads from bytes: the bytes decoded as UTF-8,
/// with U+FFFD in place of whatever is not valid UTF-8.
pub uninterp spec fn lossy_text(bytes: Seq<u8>) -> Seq<char>;

/// Calls `String::from_utf8_lossy`. The result is fixed by the bytes; where they are valid
/// UTF-8 it is the text that they encode.
#[verifier::external_body]
pub(crate) fn lossy(bytes: &[u8]) -> (text: String)
    ensures
        text@ == lossy_text(bytes@),
        valid_utf8(bytes@) ==> encode_utf8(text@) == bytes@,
{
    String::from_utf8_lossy(bytes).into_owned()
}

} // verus!
