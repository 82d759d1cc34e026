//! Letter case and byte encodings, as the standard library has them.
use vstd::prelude::*;
use vstd::utf8::{decode_utf8, is_ascii_chars, valid_utf8};

verus! {

/// What `str::to_lowercase` makes of a text that is not ASCII.
pub uninterp spec fn lowercase(s: Seq<char>) -> Seq<char>;

/// What `str::to_uppercase` makes of a text that is not ASCII.
pub uninterp spec fn uppercase(s: Seq<char>) -> Seq<char>;

/// The small form of an ASCII letter; any other character as it is.
pub open spec fn small_letter(c: char) -> char {
    if 'A' <= c <= 'Z' {
        (c as u32 + 32) as char
    } else {
        c
    }
}

/// The capital form of an ASCII letter; any other character as it is.
pub open spec fn capital_letter(c: char) -> char {
    if 'a' <= c <= 'z' {
        (c as u32 - 32) as char
    } else {
        c
    }
}

/// A text in small letters.
pub open spec fn in_small(s: Seq<char>) -> Seq<char> {
    if is_ascii_chars(s) {
        s.map_values(|c: char| small_letter(c))
    } else {
        lowercase(s)
    }
}

/// `str::to_lowercase` turns the capital letters of ASCII text into small ones
/// and changes nothing else. On other text it depends on the text alone, by the
/// case mappings of Unicode.
pub assume_specification[ str::to_lowercase ](s: &str) -> (r: String)
    ensures
        r@ == if is_ascii_chars(s@) {
            s@.map_values(|c: char| small_letter(c))
        } else {
            lowercase(s@)
        },
;

/// A text in capital letters.
pub open spec fn in_capitals(s: Seq<char>) -> Seq<char> {
    if is_ascii_chars(s) {
        s.map_values(|c: char| capital_letter(c))
    } else {
        uppercase(s)
    }
}

/// `str::to_uppercase` turns the small letters of ASCII text into capital ones
/// and changes nothing else. On other text it depends on the text alone, by the
/// case mappings of Unicode.
pub assume_specification[ str::to_uppercase ](s: &str) -> (r: String)
    ensures
        r@ == if is_ascii_chars(s@) {
            s@.map_values(|c: char| capital_letter(c))
        } else {
            uppercase(s@)
        },
;

/// `char::from_u32` gives the character of a Unicode scalar value, and nothing
/// for any other number.
pub assume_specification[ char::from_u32 ](n: u32) -> (r: Option<char>)
    ensures
        r == if n <= 0xd7ff || 0xe000 <= n <= 0x10ffff {
            Some(n as char)
        } else {
            None
        },
;

/// What `String::from_utf8_lossy` makes of bytes that are not valid UTF-8.
pub uninterp spec fn lossy_text(bytes: Seq<u8>) -> Seq<char>;

/// Bytes as text, with something in place of what is not valid UTF-8.
pub open spec fn decoded(bytes: Seq<u8>) -> Seq<char> {
    if valid_utf8(bytes) {
        decode_utf8(bytes)
    } else {
        lossy_text(bytes)
    }
}

/// `String::from_utf8_lossy` decodes valid UTF-8. On other bytes it depends on
/// the bytes alone; what it puts in place of the invalid ones is left to a name.
#[verifier::external_body]
pub(crate) fn decode_lossy(bytes: &[u8]) -> (r: String)
    ensures
        r@ == if valid_utf8(bytes@) {
            decode_utf8(bytes@)
        } else {
            lossy_text(bytes@)
        },
{
    String::from_utf8_lossy(bytes).into_owned()
}

/// What `String::from_utf8` says of bytes that are not valid UTF-8.
pub uninterp spec fn utf8_fault(bytes: Seq<u8>) -> Seq<char>;

/// Bytes as text, or what is wrong with them.
pub open spec fn utf8_text(bytes: Seq<u8>) -> Result<Seq<char>, Seq<char>> {
    if valid_utf8(bytes) {
        Ok(decode_utf8(bytes))
    } else {
        Err(utf8_fault(bytes))
    }
}

/// `String::from_utf8` decodes valid UTF-8 and refuses anything else. The words
/// of the refusal depend on the bytes alone.
#[verifier::external_body]
pub(crate) fn decode_strict(bytes: Vec<u8>) -> (r: Result<String, String>)
    ensures
        match r {
            Ok(text) => valid_utf8(bytes@) && text@ == decode_utf8(bytes@),
            Err(message) => !valid_utf8(bytes@) && message@ == utf8_fault(bytes@),
        },
{
    String::from_utf8(bytes).map_err(|error| error.to_string())
}

} // verus!
