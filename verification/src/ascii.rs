//! The bridge between text (`Seq<char>`) and the bytes it travels as.

use vstd::prelude::*;
use vstd::utf8::*;

verus! {

/// The byte of a space.
pub const SPACE: u8 = 32;

/// The byte of `!`, the first printable character after the space.
pub const EXCLAMATION_MARK: u8 = 33;

/// The byte of `%`.
pub const PERCENT: u8 = 37;

/// The byte of `&`.
pub const AMPERSAND: u8 = 38;

/// The byte of `+`.
pub const PLUS: u8 = 43;

/// The byte of `-`.
pub const MINUS: u8 = 45;

/// The byte of `.`.
pub const DOT: u8 = 46;

/// The byte of `/`.
pub const SLASH: u8 = 47;

/// The byte of `0`.
pub const DIGIT_0: u8 = 48;

/// The byte of `9`.
pub const DIGIT_9: u8 = 57;

/// The byte of `=`.
pub const EQUALS: u8 = 61;

/// The byte of `?`.
pub const QUESTION_MARK: u8 = 63;

/// The byte of `A`.
pub const UPPER_A: u8 = 65;

/// The byte of `F`.
pub const UPPER_F: u8 = 70;

/// The byte of `Z`.
pub const UPPER_Z: u8 = 90;

/// The byte of `_`.
pub const UNDERSCORE: u8 = 95;

/// The byte of `a`.
pub const LOWER_A: u8 = 97;

/// The byte of `f`.
pub const LOWER_F: u8 = 102;

/// The byte of `z`.
pub const LOWER_Z: u8 = 122;

/// The byte of `~`, the last printable character.
pub const TILDE: u8 = 126;

/// The bytes of a text made of ASCII characters only: one byte per character.
pub open spec fn ascii_bytes(s: Seq<char>) -> Seq<u8> {
    Seq::new(s.len(), |i: int| s[i] as u8)
}

/// For ASCII text the UTF-8 encoding is the text itself, byte for character.
pub proof fn lemma_ascii_utf8(s: Seq<char>)
    requires
        is_ascii_chars(s),
    ensures
        encode_utf8(s) == ascii_bytes(s),
{
    is_ascii_chars_encode_utf8(s);
    assert(encode_utf8(s) =~= ascii_bytes(s));
}

} // verus!
