//! Characters and strings: what this library takes from std beyond what vstd
//! specifies, and the spec functions that its contracts use for it.
//!
//! Each `assume_specification` here is assumed of the function that it
//! names, not proved.

use vstd::prelude::*;

verus! {

/// Assumed of `String::push`: it appends one character.
pub assume_specification[ String::push ](s: &mut String, c: char)
    ensures
        final(s)@ == old(s)@.push(c),
;

/// Whether `char::is_uppercase` holds of `c`: whether Unicode gives `c` the
/// property Uppercase.
pub uninterp spec fn char_is_uppercase(c: char) -> bool;

/// Assumed of `char::is_uppercase`: what it returns depends on the character
/// alone. Nothing is said of which characters are upper case.
pub assume_specification[ char::is_uppercase ](c: char) -> (b: bool)
    ensures
        b == char_is_uppercase(c),
;

/// Whether `char::is_alphanumeric` holds of `c`: whether Unicode counts `c`
/// as a letter or a number.
pub uninterp spec fn char_is_alphanumeric(c: char) -> bool;

/// Assumed of `char::is_alphanumeric`: what it returns depends on the
/// character alone. Nothing is said of which characters are letters or
/// numbers.
pub assume_specification[ char::is_alphanumeric ](c: char) -> (b: bool)
    ensures
        b == char_is_alphanumeric(c),
;

/// `c` with `a`-`z` turned into `A`-`Z`, and any other character as it is.
pub open spec fn ascii_upper(c: char) -> char {
    if 'a' <= c <= 'z' {
        ((c as u32) - 32) as char
    } else {
        c
    }
}

/// `c` with `A`-`Z` turned into `a`-`z`, and any other character as it is.
pub open spec fn ascii_lower(c: char) -> char {
    if 'A' <= c <= 'Z' {
        ((c as u32) + 32) as char
    } else {
        c
    }
}

/// Assumed of `char::to_ascii_uppercase`: it maps `a`-`z` to `A`-`Z` and
/// leaves every other character unchanged.
pub assume_specification[ char::to_ascii_uppercase ](c: &char) -> (u: char)
    ensures
        u == ascii_upper(*c),
;

/// Assumed of `char::to_ascii_lowercase`: it maps `A`-`Z` to `a`-`z` and
/// leaves every other character unchanged.
pub assume_specification[ char::to_ascii_lowercase ](c: &char) -> (l: char)
    ensures
        l == ascii_lower(*c),
;

/// The character that `b` is as a character, for each byte of `bytes`.
pub open spec fn as_chars(bytes: Seq<u8>) -> Seq<char> {
    bytes.map_values(|b: u8| b as char)
}

/// Whether every byte of `bytes` is below 128.
pub open spec fn is_ascii_bytes(bytes: Seq<u8>) -> bool {
    forall|i: int| 0 <= i < bytes.len() ==> #[trigger] bytes[i] < 128
}

/// A text of bytes below 128, read as characters, is encoded by those bytes.
pub proof fn lemma_ascii_bytes_encode(bytes: Seq<u8>)
    requires
        is_ascii_bytes(bytes),
    ensures
        vstd::utf8::is_ascii_chars(as_chars(bytes)),
        vstd::utf8::encode_utf8(as_chars(bytes)) == bytes,
{
    let chars = as_chars(bytes);
    assert forall|i: int| 0 <= i < chars.len() implies '\0' <= #[trigger] chars[i] <= '\u{7f}' by {
        assert(bytes[i] < 128);
    }
    vstd::utf8::is_ascii_chars_encode_utf8(chars);
    assert forall|i: int| 0 <= i < bytes.len() implies vstd::utf8::encode_utf8(chars)[i]
        == bytes[i] by {
        assert(bytes[i] < 128);
        assert(chars[i] as u8 == bytes[i]);
    }
    assert(vstd::utf8::encode_utf8(chars) =~= bytes);
}

/// The characters of a string slice, in order.
pub fn chars_of(s: &str) -> (v: Vec<char>)
    ensures
        v@ == s@,
{
    broadcast use vstd::string::group_string_axioms;

    let mut v: Vec<char> = Vec::new();
    for c in it: s.chars()
        invariant
            it.seq() == s@,
            v@ == it.seq().take(it.index()),
    {
        v.push(c);
    }
    v
}

} // verus!
