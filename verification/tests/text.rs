use slintext::text::{decode_text, format_integer, push_decimal};

#[test]
fn integers_read_back() {
    for n in [0i64, 9, 10, 99, 100, -1, -10, 4096, i64::MAX, i64::MIN] {
        let s = format_integer(n);
        assert_eq!(s, format!("{n}"));
        assert_eq!(s.parse::<i64>().unwrap(), n);
    }
}

#[test]
fn decimal_is_appended() {
    let mut s = String::from("n=");
    push_decimal(&mut s, 1207);
    assert_eq!(s, "n=1207");
    push_decimal(&mut s, 0);
    assert_eq!(s, "n=12070");
}

#[test]
fn text_is_decoded_from_utf8() {
    assert_eq!(decode_text("Hinterhältig".as_bytes()), Some("Hinterhältig".to_string()));
    assert_eq!(decode_text(b""), Some(String::new()));
    assert_eq!(decode_text(&[0x48, 0xc3]), None);
    assert_eq!(decode_text(&[0xed, 0xa0, 0x80]), None);
}
