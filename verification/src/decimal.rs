//! Decimal notation for 64-bit integers: writing it and reading it back.

use crate::ascii::{ascii_bytes, DIGIT_0, DIGIT_9, MINUS, PLUS};
use vstd::prelude::*;
use vstd::utf8::*;

verus! {

/// The character for a single decimal digit.
pub open spec fn digit_char(d: nat) -> char
    recommends
        d < 10,
{
    (DIGIT_0 + d) as u8 as char
}

/// `b` is one of the bytes `'0'..='9'`.
pub open spec fn is_digit(b: u8) -> bool {
    DIGIT_0 <= b <= DIGIT_9
}

/// Every byte of `s` is a decimal digit.
pub open spec fn all_digits(s: Seq<u8>) -> bool {
    forall|i: int| 0 <= i < s.len() ==> is_digit(#[trigger] s[i])
}

/// The shortest decimal notation of a natural number.
pub open spec fn decimal_nat(n: nat) -> Seq<char>
    decreases n,
{
    if n < 10 {
        seq![digit_char(n)]
    } else {
        decimal_nat(n / 10).push(digit_char(n % 10))
    }
}

/// The decimal notation of an integer: a minus sign for negative numbers, no
/// sign otherwise, and no leading zeros.
pub open spec fn decimal(i: int) -> Seq<char> {
    if i < 0 {
        seq!['-'] + decimal_nat((-i) as nat)
    } else {
        decimal_nat(i as nat)
    }
}

/// The number that a string of decimal digits denotes.
pub open spec fn digits_value(s: Seq<u8>) -> nat
    decreases s.len(),
{
    if s.len() == 0 {
        0
    } else {
        digits_value(s.drop_last()) * 10 + (s.last() - DIGIT_0) as nat
    }
}

/// The 64-bit integer with the given sign whose magnitude is written by
/// `digits`: at least one decimal digit, leading zeros allowed; the value
/// must fit.
pub open spec fn signed_value(negative: bool, digits: Seq<u8>) -> Option<i64> {
    if digits.len() == 0 || !all_digits(digits) {
        None
    } else {
        let magnitude = digits_value(digits) as int;
        let value = if negative {
            -magnitude
        } else {
            magnitude
        };
        if i64::MIN <= value <= i64::MAX {
            Some(value as i64)
        } else {
            None
        }
    }
}

/// What a byte string means as a 64-bit integer: an optional single `+` or
/// `-`, then the digits of the magnitude.
pub open spec fn parse_i64_spec(s: Seq<u8>) -> Option<i64> {
    if s.len() > 0 && s[0] == MINUS {
        signed_value(true, s.skip(1))
    } else if s.len() > 0 && s[0] == PLUS {
        signed_value(false, s.skip(1))
    } else {
        signed_value(false, s)
    }
}

/// The characters used by decimal notation: digits and the minus sign.
pub open spec fn is_decimal_char(c: char) -> bool {
    c == '-' || ('0' <= c <= '9')
}

/// Decimal notation of a natural number is never empty and uses digits only.
pub proof fn lemma_decimal_nat_digits(n: nat)
    ensures
        decimal_nat(n).len() >= 1,
        forall|i: int| 0 <= i < decimal_nat(n).len() ==> '0' <= #[trigger] decimal_nat(n)[i] <= '9',
    decreases n,
{
    if n >= 10 {
        lemma_decimal_nat_digits(n / 10);
    }
}

/// Decimal notation is never empty, is plain ASCII, and contains nothing but
/// digits and possibly a leading minus sign.
pub proof fn lemma_decimal_chars(i: int)
    ensures
        decimal(i).len() >= 1,
        is_ascii_chars(decimal(i)),
        forall|k: int| 0 <= k < decimal(i).len() ==> is_decimal_char(#[trigger] decimal(i)[k]),
{
    if i < 0 {
        lemma_decimal_nat_digits((-i) as nat);
    } else {
        lemma_decimal_nat_digits(i as nat);
    }
}

/// Reading the decimal notation of a natural number gives the number back.
pub proof fn lemma_digits_of_decimal_nat(n: nat)
    ensures
        all_digits(ascii_bytes(decimal_nat(n))),
        digits_value(ascii_bytes(decimal_nat(n))) == n,
    decreases n,
{
    let text = decimal_nat(n);
    let bytes = ascii_bytes(text);
    if n < 10 {
        assert(bytes.drop_last() =~= Seq::<u8>::empty());
        assert(digits_value(bytes.drop_last()) == 0);
        assert(bytes[0] == DIGIT_0 + n);
    } else {
        let shorter = ascii_bytes(decimal_nat(n / 10));
        lemma_digits_of_decimal_nat(n / 10);
        assert(bytes.drop_last() =~= shorter);
        assert(bytes.last() == DIGIT_0 + n % 10);
        assert forall|i: int| 0 <= i < bytes.len() implies is_digit(#[trigger] bytes[i]) by {
            if i < bytes.len() - 1 {
                assert(bytes[i] == shorter[i]);
            }
        }
    }
}

/// A longer string of digits never denotes a smaller number than its prefix.
pub proof fn lemma_digits_value_prefix(s: Seq<u8>, k: int)
    requires
        0 <= k <= s.len(),
    ensures
        digits_value(s.take(k)) <= digits_value(s),
    decreases s.len(),
{
    if k == s.len() {
        assert(s.take(k) =~= s);
    } else {
        lemma_digits_value_prefix(s.drop_last(), k);
        assert(s.drop_last().take(k) =~= s.take(k));
    }
}

/// Reading back what `decimal` wrote for a 64-bit integer gives that integer.
pub proof fn lemma_parse_decimal(v: i64)
    ensures
        parse_i64_spec(ascii_bytes(decimal(v as int))) == Some(v),
{
    let text = decimal(v as int);
    let bytes = ascii_bytes(text);
    if v < 0 {
        let n = (-(v as int)) as nat;
        lemma_digits_of_decimal_nat(n);
        lemma_decimal_nat_digits(n);
        assert(bytes.skip(1) =~= ascii_bytes(decimal_nat(n)));
        assert(bytes[0] == MINUS);
    } else {
        let n = v as nat;
        lemma_digits_of_decimal_nat(n);
        lemma_decimal_nat_digits(n);
        assert(bytes =~= ascii_bytes(decimal_nat(n)));
        assert(is_digit(bytes[0]));
    }
}

fn push_decimal_nat(out: &mut String, n: u64)
    ensures
        final(out)@ == old(out)@ + decimal_nat(n as nat),
    decreases n,
{
    if n >= 10 {
        push_decimal_nat(out, n / 10);
    }
    let d: u8 = (n % 10) as u8;
    out.push((DIGIT_0 + d) as char);
    assert(out@ =~= old(out)@ + decimal_nat(n as nat));
}

/// Appends the decimal notation of `v` to `out`.
pub fn push_decimal(out: &mut String, v: i64)
    ensures
        final(out)@ == old(out)@ + decimal(v as int),
{
    if v < 0 {
        out.push('-');
        let magnitude: u64 = (0 - (v as i128)) as u64;
        push_decimal_nat(out, magnitude);
        assert(out@ =~= old(out)@ + decimal(v as int));
    } else {
        push_decimal_nat(out, v as u64);
    }
}

/// Reads a 64-bit integer from its decimal notation.
pub fn parse_i64(s: &[u8]) -> (r: Option<i64>)
    ensures
        r == parse_i64_spec(s@),
{
    let n = s.len();
    if n == 0 {
        return None;
    }
    let negative = s[0] == MINUS;
    let start: usize = if s[0] == MINUS || s[0] == PLUS {
        1
    } else {
        0
    };
    let ghost digits = s@.skip(start as int);
    proof {
        assert(s@.skip(0) =~= s@);
        assert(parse_i64_spec(s@) == signed_value(negative, digits));
    }
    if start == n {
        return None;
    }
    let limit: u64 = 0x8000_0000_0000_0000;
    let mut acc: u64 = 0;
    let mut i: usize = start;
    while i < n
        invariant
            n == s@.len(),
            start <= i <= n,
            digits == s@.skip(start as int),
            parse_i64_spec(s@) == signed_value(negative, digits),
            all_digits(digits.take(i - start)),
            acc == digits_value(digits.take(i - start)),
            acc <= limit,
            limit == 0x8000_0000_0000_0000,
        decreases n - i,
    {
        let b = s[i];
        if b < DIGIT_0 || b > DIGIT_9 {
            assert(!is_digit(digits[i - start]));
            return None;
        }
        let d: u64 = (b - DIGIT_0) as u64;
        proof {
            let longer = digits.take(i - start + 1);
            assert(longer.drop_last() =~= digits.take(i - start));
            assert(longer.last() == b);
            assert(digits_value(longer) == acc * 10 + d);
            assert forall|k: int| 0 <= k < longer.len() implies is_digit(#[trigger] longer[k]) by {
                if k < i - start {
                    assert(digits.take(i - start)[k] == longer[k]);
                }
            }
        }
        if acc > (limit - d) / 10 {
            proof {
                if all_digits(digits) {
                    lemma_digits_value_prefix(digits, i - start + 1);
                }
            }
            return None;
        }
        acc = acc * 10 + d;
        i = i + 1;
    }
    proof {
        assert(digits.take(i - start) =~= digits);
    }
    if negative {
        if acc == limit {
            Some(i64::MIN)
        } else {
            Some(0 - (acc as i64))
        }
    } else {
        if acc == limit {
            None
        } else {
            Some(acc as i64)
        }
    }
}

} // verus!
