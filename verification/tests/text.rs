use mas_router::decimal::{parse_i64, push_decimal};
use mas_router::percent::{form_decode_bytes, push_percent_encoded};
use mas_router::query::{lookup, position, same_bytes};

fn decimal(v: i64) -> String {
    let mut out = String::new();
    push_decimal(&mut out, v);
    out
}

fn encoded(bytes: &[u8]) -> String {
    let mut out = String::new();
    push_percent_encoded(&mut out, bytes);
    out
}

#[test]
fn decimal_notation() {
    assert_eq!(decimal(0), "0");
    assert_eq!(decimal(7), "7");
    assert_eq!(decimal(10), "10");
    assert_eq!(decimal(-1), "-1");
    assert_eq!(decimal(1234567890), "1234567890");
    assert_eq!(decimal(i64::MAX), "9223372036854775807");
    assert_eq!(decimal(i64::MIN), "-9223372036854775808");
}

#[test]
fn decimal_is_appended() {
    let mut out = "id=".to_owned();
    push_decimal(&mut out, 42);
    push_decimal(&mut out, -3);
    assert_eq!(out, "id=42-3");
}

#[test]
fn decimal_agrees_with_the_standard_library() {
    for v in [0, 1, -1, 9, 10, 99, 100, 101, -100, 4096, i64::MAX, i64::MIN, i64::MIN + 1] {
        assert_eq!(decimal(v), v.to_string());
        assert_eq!(parse_i64(v.to_string().as_bytes()), Some(v));
    }
}

#[test]
fn parse_reads_signs_and_zeros() {
    assert_eq!(parse_i64(b"0"), Some(0));
    assert_eq!(parse_i64(b"-0"), Some(0));
    assert_eq!(parse_i64(b"+0"), Some(0));
    assert_eq!(parse_i64(b"+15"), Some(15));
    assert_eq!(parse_i64(b"-15"), Some(-15));
    assert_eq!(parse_i64(b"000015"), Some(15));
    assert_eq!(parse_i64(b"-00000000000000000000000000000000000000009"), Some(-9));
}

#[test]
fn parse_refuses_what_is_no_number() {
    for text in ["", "-", "+", "+-1", "1 ", " 1", "1_000", "0x10", "1e3", "٣", "12a", "--1"] {
        assert_eq!(parse_i64(text.as_bytes()), None);
        assert!(text.parse::<i64>().is_err());
    }
}

#[test]
fn parse_refuses_what_does_not_fit() {
    assert_eq!(parse_i64(b"9223372036854775807"), Some(i64::MAX));
    assert_eq!(parse_i64(b"9223372036854775808"), None);
    assert_eq!(parse_i64(b"-9223372036854775808"), Some(i64::MIN));
    assert_eq!(parse_i64(b"-9223372036854775809"), None);
    assert_eq!(parse_i64(b"18446744073709551616"), None);
    assert_eq!(parse_i64(b"99999999999999999999999999999999999999999999"), None);
}

#[test]
fn percent_encoding_keeps_unreserved_bytes() {
    assert_eq!(
        encoded(b"ABCXYZabcxyz0123456789-._~"),
        "ABCXYZabcxyz0123456789-._~"
    );
    assert_eq!(encoded(b""), "");
}

#[test]
fn percent_encoding_escapes_everything_else() {
    assert_eq!(encoded(b"/"), "%2F");
    assert_eq!(encoded(b"a b"), "a%20b");
    assert_eq!(encoded(b"%"), "%25");
    assert_eq!(encoded(b"?#&=+"), "%3F%23%26%3D%2B");
    assert_eq!(encoded(&[0x00, 0x0f, 0x10, 0x7f, 0x80, 0xff]), "%00%0F%10%7F%80%FF");
    assert_eq!(encoded("\u{1F600}".as_bytes()), "%F0%9F%98%80");
    assert_eq!(encoded(b"@[]{}"), "%40%5B%5D%7B%7D");
}

#[test]
fn percent_encoding_is_appended() {
    let mut out = "/verify/".to_owned();
    push_percent_encoded(&mut out, b"a/b");
    assert_eq!(out, "/verify/a%2Fb");
}

#[test]
fn form_decoding() {
    assert_eq!(form_decode_bytes(b"abc"), b"abc");
    assert_eq!(form_decode_bytes(b"a+b"), b"a b");
    assert_eq!(form_decode_bytes(b"a%2Fb"), b"a/b");
    assert_eq!(form_decode_bytes(b"a%2fb"), b"a/b");
    assert_eq!(form_decode_bytes(b"%41%42%43"), b"ABC");
    assert_eq!(form_decode_bytes(b"%00%ff"), [0x00, 0xff]);
    assert_eq!(form_decode_bytes(b"%2B"), b"+");
    assert_eq!(form_decode_bytes(b"%252F"), b"%2F");
    assert_eq!(form_decode_bytes(b""), b"");
}

#[test]
fn form_decoding_leaves_broken_escapes() {
    assert_eq!(form_decode_bytes(b"%"), b"%");
    assert_eq!(form_decode_bytes(b"%4"), b"%4");
    assert_eq!(form_decode_bytes(b"%zz"), b"%zz");
    assert_eq!(form_decode_bytes(b"%4g1"), b"%4g1");
    assert_eq!(form_decode_bytes(b"100%"), b"100%");
    assert_eq!(form_decode_bytes(b"%%41"), b"%A");
}

#[test]
fn form_decoding_undoes_percent_encoding() {
    let all: Vec<u8> = (0..=255).collect();
    assert_eq!(form_decode_bytes(encoded(&all).as_bytes()), all);
    let text = "caf\u{e9} / \u{4e2d}\u{6587}?#";
    assert_eq!(form_decode_bytes(encoded(text.as_bytes()).as_bytes()), text.as_bytes());
}

#[test]
fn position_of_a_byte() {
    assert_eq!(position(b"a=b", b'='), 1);
    assert_eq!(position(b"=b", b'='), 0);
    assert_eq!(position(b"a=b=c", b'='), 1);
    assert_eq!(position(b"abc", b'='), 3);
    assert_eq!(position(b"", b'='), 0);
}

#[test]
fn same_bytes_compares() {
    assert!(same_bytes(b"", b""));
    assert!(same_bytes(b"next", b"next"));
    assert!(!same_bytes(b"next", b"nex"));
    assert!(!same_bytes(b"next", b"nexT"));
    assert!(!same_bytes(b"", b"x"));
}

#[test]
fn lookup_collects_values_in_order() {
    let values = lookup(b"a=1&b=2&a=3&c&a", b"a");
    assert_eq!(values, vec![b"1".to_vec(), b"3".to_vec(), Vec::new()]);
    assert_eq!(lookup(b"a=1&b=2", b"c"), Vec::<Vec<u8>>::new());
    assert_eq!(lookup(b"", b"a"), Vec::<Vec<u8>>::new());
}

#[test]
fn lookup_splits_at_the_first_equals_sign() {
    assert_eq!(lookup(b"a=b=c", b"a"), vec![b"b=c".to_vec()]);
    assert_eq!(lookup(b"=v", b""), vec![b"v".to_vec()]);
    assert_eq!(lookup(b"&&", b""), Vec::<Vec<u8>>::new());
}

#[test]
fn lookup_decodes_keys_and_values() {
    assert_eq!(lookup(b"a%20b=c+d", b"a b"), vec![b"c d".to_vec()]);
    assert_eq!(lookup(b"k=%26%3D", b"k"), vec![b"&=".to_vec()]);
    assert_eq!(lookup(b"a%3Db=c", b"a=b"), vec![b"c".to_vec()]);
}
