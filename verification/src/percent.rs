//! Percent-encoding of path segments, and the decoding of form-encoded text.

use crate::ascii::{
    ascii_bytes, DIGIT_0, DIGIT_9, DOT, LOWER_A, LOWER_F, LOWER_Z, MINUS, PERCENT, PLUS, SPACE,
    TILDE, UNDERSCORE, UPPER_A, UPPER_F, UPPER_Z,
};
use vstd::prelude::*;
use vstd::utf8::*;

verus! {

/// The bytes that stay as they are in a path segment: ASCII letters and
/// digits, `-`, `.`, `_` and `~`.
pub open spec fn is_unreserved(b: u8) -> bool {
    (DIGIT_0 <= b <= DIGIT_9) || (UPPER_A <= b <= UPPER_Z) || (LOWER_A <= b <= LOWER_Z) || b
        == MINUS || b == DOT || b == UNDERSCORE || b == TILDE
}

/// The upper-case hexadecimal digit for a value below 16.
pub open spec fn hex_digit(n: nat) -> char
    recommends
        n < 16,
{
    if n < 10 {
        (DIGIT_0 + n) as u8 as char
    } else {
        (UPPER_A + n - 10) as u8 as char
    }
}

/// How one byte is written in a path segment: itself when unreserved, else
/// `%` and its two hexadecimal digits.
pub open spec fn encode_byte(b: u8) -> Seq<char> {
    if is_unreserved(b) {
        seq![b as char]
    } else {
        seq!['%', hex_digit((b / 16) as nat), hex_digit((b % 16) as nat)]
    }
}

/// The percent-encoding of a byte string, byte by byte.
pub open spec fn percent_encode(s: Seq<u8>) -> Seq<char>
    decreases s.len(),
{
    if s.len() == 0 {
        Seq::empty()
    } else {
        encode_byte(s[0]) + percent_encode(s.skip(1))
    }
}

/// The characters that percent-encoding can produce. None of them separates
/// path segments or starts a query or a fragment.
pub open spec fn is_segment_char(c: char) -> bool {
    c == '%' || ('0' <= c <= '9') || ('A' <= c <= 'Z') || ('a' <= c <= 'z') || c == '-' || c == '.'
        || c == '_' || c == '~'
}

/// The value of a hexadecimal digit of either case, if `b` is one.
pub open spec fn hex_value(b: u8) -> Option<nat> {
    if DIGIT_0 <= b <= DIGIT_9 {
        Some((b - DIGIT_0) as nat)
    } else if UPPER_A <= b <= UPPER_F {
        Some((b - UPPER_A + 10) as nat)
    } else if LOWER_A <= b <= LOWER_F {
        Some((b - LOWER_A + 10) as nat)
    } else {
        None
    }
}

/// `s` starts with `%` and two hexadecimal digits.
pub open spec fn starts_with_escape(s: Seq<u8>) -> bool {
    s.len() >= 3 && s[0] == PERCENT && hex_value(s[1]) is Some && hex_value(s[2]) is Some
}

/// Form decoding: `+` stands for a space, `%` followed by two hexadecimal
/// digits stands for the byte they spell, and every other byte, a stray `%`
/// included, stands for itself.
pub open spec fn form_decode(s: Seq<u8>) -> Seq<u8>
    decreases s.len(),
{
    if s.len() == 0 {
        Seq::empty()
    } else if starts_with_escape(s) {
        seq![(hex_value(s[1])->0 * 16 + hex_value(s[2])->0) as u8] + form_decode(s.skip(3))
    } else if s[0] == PLUS {
        seq![SPACE] + form_decode(s.skip(1))
    } else {
        seq![s[0]] + form_decode(s.skip(1))
    }
}

/// Bytes that form decoding leaves alone.
pub open spec fn is_literal(b: u8) -> bool {
    b != PERCENT && b != PLUS
}

/// Every byte of `s` is one that form decoding leaves alone.
pub open spec fn all_literal(s: Seq<u8>) -> bool {
    forall|i: int| 0 <= i < s.len() ==> is_literal(#[trigger] s[i])
}

/// Percent-encoding produces plain ASCII made of segment characters only, so
/// an encoded value can never add a `/`, `?`, `#`, `&` or `=` to a URL.
pub proof fn lemma_percent_encode_chars(s: Seq<u8>)
    ensures
        is_ascii_chars(percent_encode(s)),
        forall|i: int|
            0 <= i < percent_encode(s).len() ==> is_segment_char(#[trigger] percent_encode(s)[i]),
    decreases s.len(),
{
    if s.len() > 0 {
        lemma_percent_encode_chars(s.skip(1));
        let head = encode_byte(s[0]);
        let tail = percent_encode(s.skip(1));
        assert forall|i: int| 0 <= i < head.len() implies is_segment_char(#[trigger] head[i])
            && '\0' <= head[i] <= '\u{7f}' by {}
        assert forall|i: int| 0 <= i < percent_encode(s).len() implies is_segment_char(
            #[trigger] percent_encode(s)[i],
        ) && '\0' <= percent_encode(s)[i] <= '\u{7f}' by {
            if i < head.len() {
                assert(percent_encode(s)[i] == head[i]);
            } else {
                assert(percent_encode(s)[i] == tail[i - head.len()]);
            }
        }
    }
}

/// Percent-encoding loses nothing: form decoding gives the bytes back.
pub proof fn lemma_decode_percent_encode(s: Seq<u8>)
    ensures
        form_decode(ascii_bytes(percent_encode(s))) == s,
    decreases s.len(),
{
    if s.len() > 0 {
        let b = s[0];
        let head = ascii_bytes(encode_byte(b));
        let tail = ascii_bytes(percent_encode(s.skip(1)));
        let all = ascii_bytes(percent_encode(s));
        lemma_decode_percent_encode(s.skip(1));
        assert(all =~= head + tail);
        if is_unreserved(b) {
            assert(head[0] == b);
            assert(all[0] == b);
            assert(all.skip(1) =~= tail);
            assert(!starts_with_escape(all));
        } else {
            let hi = (b / 16) as nat;
            let lo = (b % 16) as nat;
            assert(all[0] == PERCENT);
            assert(all[1] == hex_digit(hi) as u8);
            assert(all[2] == hex_digit(lo) as u8);
            assert(hex_value(all[1]) == Some(hi));
            assert(hex_value(all[2]) == Some(lo));
            assert(all.skip(3) =~= tail);
        }
        assert(form_decode(all) =~= seq![b] + s.skip(1));
        assert(seq![b] + s.skip(1) =~= s);
    } else {
        assert(ascii_bytes(percent_encode(s)) =~= Seq::<u8>::empty());
    }
}

/// Form decoding changes nothing in text without `%` and `+`.
pub proof fn lemma_form_decode_literal(s: Seq<u8>)
    requires
        all_literal(s),
    ensures
        form_decode(s) == s,
    decreases s.len(),
{
    if s.len() > 0 {
        assert(is_literal(s[0]));
        assert forall|i: int| 0 <= i < s.skip(1).len() implies is_literal(
            #[trigger] s.skip(1)[i],
        ) by {
            assert(s.skip(1)[i] == s[i + 1]);
        }
        lemma_form_decode_literal(s.skip(1));
        assert(seq![s[0]] + s.skip(1) =~= s);
    }
}

fn hex_digit_of(n: u8) -> (c: char)
    requires
        n < 16,
    ensures
        c == hex_digit(n as nat),
{
    if n < 10 {
        (DIGIT_0 + n) as char
    } else {
        (UPPER_A + (n - 10)) as char
    }
}

fn is_unreserved_byte(b: u8) -> (r: bool)
    ensures
        r == is_unreserved(b),
{
    (DIGIT_0 <= b && b <= DIGIT_9) || (UPPER_A <= b && b <= UPPER_Z) || (LOWER_A <= b && b
        <= LOWER_Z) || b == MINUS || b == DOT || b == UNDERSCORE || b == TILDE
}

fn hex_value_of(b: u8) -> (r: Option<u8>)
    ensures
        r is Some == hex_value(b) is Some,
        r matches Some(v) ==> v < 16 && hex_value(b) == Some(v as nat),
{
    if DIGIT_0 <= b && b <= DIGIT_9 {
        Some(b - DIGIT_0)
    } else if UPPER_A <= b && b <= UPPER_F {
        Some(b - UPPER_A + 10)
    } else if LOWER_A <= b && b <= LOWER_F {
        Some(b - LOWER_A + 10)
    } else {
        None
    }
}

/// Appends the percent-encoding of `s` to `out`.
pub fn push_percent_encoded(out: &mut String, s: &[u8])
    ensures
        final(out)@ == old(out)@ + percent_encode(s@),
{
    let n = s.len();
    let mut i: usize = 0;
    proof {
        assert(s@.skip(0) =~= s@);
        assert(out@ + percent_encode(s@.skip(0)) =~= old(out)@ + percent_encode(s@));
    }
    while i < n
        invariant
            n == s@.len(),
            i <= n,
            out@ + percent_encode(s@.skip(i as int)) == old(out)@ + percent_encode(s@),
        decreases n - i,
    {
        let b = s[i];
        let ghost before = out@;
        let ghost rest = s@.skip(i as int);
        proof {
            assert(rest[0] == b);
            assert(rest.skip(1) =~= s@.skip(i + 1));
        }
        if is_unreserved_byte(b) {
            out.push(b as char);
        } else {
            out.push('%');
            out.push(hex_digit_of(b / 16));
            out.push(hex_digit_of(b % 16));
        }
        proof {
            assert(out@ =~= before + encode_byte(b));
            assert(out@ + percent_encode(s@.skip(i + 1)) =~= before + percent_encode(rest));
        }
        i = i + 1;
    }
    proof {
        assert(percent_encode(s@.skip(n as int)) =~= Seq::<char>::empty());
        assert(out@ =~= out@ + percent_encode(s@.skip(n as int)));
    }
}

/// Form-decodes `s`.
pub fn form_decode_bytes(s: &[u8]) -> (r: Vec<u8>)
    ensures
        r@ == form_decode(s@),
{
    let n = s.len();
    let mut out: Vec<u8> = Vec::new();
    let mut i: usize = 0;
    proof {
        assert(s@.skip(0) =~= s@);
        assert(out@ + form_decode(s@.skip(0)) =~= form_decode(s@));
    }
    while i < n
        invariant
            n == s@.len(),
            i <= n,
            out@ + form_decode(s@.skip(i as int)) == form_decode(s@),
        decreases n - i,
    {
        let b = s[i];
        let ghost before = out@;
        let ghost rest = s@.skip(i as int);
        proof {
            assert(rest[0] == b);
            assert(rest.skip(1) =~= s@.skip(i + 1));
        }
        let mut step: usize = 1;
        let mut decoded: u8 = if b == PLUS {
            SPACE
        } else {
            b
        };
        if b == PERCENT && n - i >= 3 {
            proof {
                assert(rest[1] == s@[i + 1]);
                assert(rest[2] == s@[i + 2]);
                assert(rest.skip(3) =~= s@.skip(i + 3));
            }
            match (hex_value_of(s[i + 1]), hex_value_of(s[i + 2])) {
                (Some(hi), Some(lo)) => {
                    decoded = hi * 16 + lo;
                    step = 3;
                },
                _ => {},
            }
        }
        out.push(decoded);
        proof {
            assert(out@ =~= before + seq![decoded]);
            assert(form_decode(rest) =~= seq![decoded] + form_decode(s@.skip(i + step)));
            assert(out@ + form_decode(s@.skip(i + step)) =~= before + form_decode(rest));
        }
        i = i + step;
    }
    proof {
        assert(form_decode(s@.skip(n as int)) =~= Seq::<u8>::empty());
        assert(out@ =~= out@ + form_decode(s@.skip(n as int)));
    }
    out
}

} // verus!
