//! The device address as it reaches the history request: the JSON text of
//! the listing's `macAddress` string, without its surrounding quotes.

use vstd::prelude::*;
use vstd::string::*;

verus! {

/// The JSON text that `serde_json` writes for a string value: the string in
/// double quotes, with escape sequences in place of some of its characters.
pub uninterp spec fn json_string_text(text: Seq<char>) -> Seq<char>;

/// Whether the JSON text of a string holds an escape sequence in place of
/// the character: the double quote, the backslash and the control
/// characters below U+0020.
pub open spec fn is_escaped(c: char) -> bool {
    c == '"' || c == '\\' || (c as u32) < 0x20
}

/// Whether the JSON text of `text` holds its characters unchanged.
pub open spec fn is_plain(text: Seq<char>) -> bool {
    forall|i: int| 0 <= i < text.len() ==> !is_escaped(#[trigger] text[i])
}

/// `text` without its first and its last character; empty where it has
/// fewer than two.
pub open spec fn unquoted(text: Seq<char>) -> Seq<char> {
    if text.len() >= 2 {
        text.subrange(1, text.len() - 1)
    } else {
        Seq::empty()
    }
}

/// Writes `text` as a JSON string, by `serde_json::Value::to_string` on the
/// string value that holds it.
///
/// Trusted: the result is the text that `serde_json` writes, which starts
/// and ends with a double quote, and which holds the characters of `text`
/// unchanged between the two where none of them is escaped.
#[verifier::external_body]
pub(crate) fn encode_text(text: &str) -> (encoded: String)
    ensures
        encoded@ == json_string_text(text@),
        encoded@.len() >= 2,
        encoded@.first() == '"',
        encoded@.last() == '"',
        is_plain(text@) ==> encoded@ == seq!['"'] + text@ + seq!['"'],
{
    serde_json::Value::String(text.to_owned()).to_string()
}

/// Strips the first and the last character of `text`.
pub fn strip_quotes(text: &str) -> (stripped: String)
    ensures
        stripped@ == unquoted(text@),
{
    let length = text.unicode_len();
    if length >= 2 {
        String::from_str(text.substring_char(1, length - 1))
    } else {
        String::new()
    }
}

/// The address that the history request carries for a device whose listing
/// gives `address` as its `macAddress`.
pub fn request_address(address: &str) -> (stripped: String)
    ensures
        stripped@ == unquoted(json_string_text(address@)),
        is_plain(address@) ==> stripped@ == address@,
{
    let encoded = encode_text(address);
    proof {
        if is_plain(address@) {
            assert(unquoted(seq!['"'] + address@ + seq!['"']) =~= address@);
        }
    }
    strip_quotes(encoded.as_str())
}

} // verus!
