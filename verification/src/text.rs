//! Text that crosses the driver boundary as bytes.
//!
//! The driver takes and gives text as zero-terminated bytes. Text handed to it must
//! hold no zero byte, and bytes taken from it count as text only if they hold none
//! and are valid UTF-8.

use vstd::prelude::*;
use vstd::utf8::{decode_utf8, encode_utf8, encode_utf8_decode_utf8, valid_utf8};

verus! {

/// Whether a zero byte occurs in `bytes`.
pub open spec fn has_nul(bytes: Seq<u8>) -> bool {
    exists|i: int| 0 <= i < bytes.len() && bytes[i] == 0u8
}

/// The text that `bytes` hold, if they hold text.
pub open spec fn text_of(bytes: Seq<u8>) -> Option<Seq<char>> {
    if has_nul(bytes) || !valid_utf8(bytes) {
        None
    } else {
        Some(decode_utf8(bytes))
    }
}

/// Whether a zero byte occurs in `bytes`.
pub fn contains_nul(bytes: &[u8]) -> (found: bool)
    ensures
        found == has_nul(bytes@),
{
    let mut i: usize = 0;
    while i < bytes.len()
        invariant
            i <= bytes.len(),
            forall|j: int| 0 <= j < i ==> bytes@[j] != 0u8,
        decreases bytes.len() - i,
    {
        if bytes[i] == 0 {
            return true;
        }
        i += 1;
    }
    false
}

/// `String::from_utf8` of std, with the error dropped. It returns a string exactly
/// for valid UTF-8, and the string is made of the bytes given: its characters encode
/// to them.
#[verifier::external_body]
fn string_from_utf8(bytes: Vec<u8>) -> (text: Option<String>)
    ensures
        text is Some <==> valid_utf8(bytes@),
        text matches Some(s) ==> encode_utf8(s@) == bytes@,
{
    match String::from_utf8(bytes) {
        Ok(text) => Some(text),
        Err(_) => None,
    }
}

/// Reads bytes that the driver wrote as text: `None` where they hold a zero byte or
/// are not valid UTF-8.
pub fn read_text(bytes: Vec<u8>) -> (text: Option<String>)
    ensures
        text is Some <==> text_of(bytes@) is Some,
        text matches Some(s) ==> text_of(bytes@) == Some(s@),
{
    if contains_nul(bytes.as_slice()) {
        return None;
    }
    let text = string_from_utf8(bytes);
    proof {
        if text is Some {
            encode_utf8_decode_utf8(text->0@);
        }
    }
    text
}

/// Bytes that hold text hold at least one character, unless there are none.
pub proof fn lemma_text_is_empty_only_of_nothing(bytes: Seq<u8>)
    ensures
        text_of(bytes) is Some && bytes.len() > 0 ==> text_of(bytes)->0.len() > 0,
{
}

} // verus!
