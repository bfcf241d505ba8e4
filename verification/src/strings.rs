//! Text and bytes: what the standard library's `String` does, where the
//! crate relies on it.

use vstd::prelude::*;
use vstd::string::StringExecFns;
use vstd::utf8::{decode_utf8, valid_utf8};

verus! {

/// `String::push` appends the given character to the end of the string.
pub assume_specification[ String::push ](s: &mut String, ch: char)
    ensures
        final(s)@ == old(s)@.push(ch),
;

/// What `String::from_utf8_lossy` makes of bytes that are not UTF-8, as a
/// function of the bytes.
pub uninterp spec fn utf8_lossy(bytes: Seq<u8>) -> Seq<char>;

/// The text that bytes stand for: the text they encode where they are
/// UTF-8, and what `String::from_utf8_lossy` makes of them where they are
/// not.
pub open spec fn utf8_text(bytes: Seq<u8>) -> Seq<char> {
    if valid_utf8(bytes) {
        decode_utf8(bytes)
    } else {
        utf8_lossy(bytes)
    }
}

/// Calls `String::from_utf8_lossy` to read bytes as text.
///
/// Trusted: bytes that are UTF-8 give the text they encode. Other bytes
/// give a text in which the standard library has put U+FFFD for what it
/// could not read; that text depends on the bytes alone and is named
/// `utf8_lossy`.
#[verifier::external_body]
pub(crate) fn from_utf8_lossy(bytes: &Vec<u8>) -> (text: String)
    ensures
        text@ == utf8_text(bytes@),
        !valid_utf8(bytes@) ==> text@ == utf8_lossy(bytes@),
{
    String::from_utf8_lossy(bytes).into_owned()
}

/// The text whose characters have the code points that the bytes give, one
/// character for each byte.
pub open spec fn as_chars(bytes: Seq<u8>) -> Seq<char> {
    bytes.map_values(|b: u8| b as char)
}

/// The line that tells of a frame that did not decode.
pub open spec fn error_line(text: Seq<char>) -> Seq<char> {
    "JSON serialize error: "@ + text
}

/// The line that tells of a frame that did not decode.
pub fn error_line_of(text: &str) -> (line: String)
    ensures
        line@ == error_line(text@),
{
    let mut line = "JSON serialize error: ".to_owned();
    line.append(text);
    line
}

} // verus!
