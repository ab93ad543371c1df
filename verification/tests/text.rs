//! Text and bytes.
use ronsole::bytes::{
    append, append_be16, append_be32, append_text, copy, copy_list, copy_slice, is_text as is_bytes,
    read_be16, read_be32, same_bytes,
};
use ronsole::text::{
    chars_of, decimal_text, equals_ignoring_case, is_text, parse_i32, parse_unsigned,
    push_decimal, same_chars, same_text, split, split_words, text_of, trim, white_space,
};

#[test]
fn numbers_are_written_and_read() {
    assert_eq!(decimal_text(0), "0");
    assert_eq!(decimal_text(u64::MAX), "18446744073709551615");
    let mut out = "n".to_owned();
    push_decimal(&mut out, 1209);
    assert_eq!(out, "n1209");
    assert_eq!(parse_unsigned(b"+12", 100), Some(12));
    assert_eq!(parse_unsigned(b"101", 100), None);
    assert_eq!(parse_unsigned(b"18446744073709551616", u64::MAX), None);
    assert_eq!(parse_unsigned(b"", 100), None);
    assert_eq!(parse_i32(b"-2147483648"), Some(i32::MIN));
    assert_eq!(parse_i32(b"2147483648"), None);
    assert_eq!(parse_i32(b"-"), None);
}

#[test]
fn bytes_come_apart_at_separators() {
    assert_eq!(split(b"a::b", b':'), vec![b"a".to_vec(), Vec::new(), b"b".to_vec()]);
    assert_eq!(split_words(b" a\tb\n"), vec![b"a".to_vec(), b"b".to_vec()]);
}

#[test]
fn white_space_is_that_of_unicode() {
    for code in 0..0x3100u32 {
        if let Some(c) = char::from_u32(code) {
            assert_eq!(white_space(c), c.is_whitespace(), "{code:x}");
        }
    }
    let chars = chars_of("\u{3000} a b\n");
    assert_eq!(text_of(trim(&chars)), "a b");
    assert!(equals_ignoring_case(&chars_of("aBz"), &chars_of("AbZ")));
    assert!(!equals_ignoring_case(&chars_of("é"), &chars_of("É")));
    assert!(same_chars(&['a'], &['a']));
    assert!(is_text(&['a', 'b'], "ab"));
    assert!(!same_text("ab", "abc"));
    assert_eq!(ronsole::text::concat("a", "b"), "ab");
}

#[test]
fn bytes_are_copied_and_compared() {
    let mut out = copy(b"ab");
    append(&mut out, b"c");
    append_text(&mut out, "ж");
    assert!(same_bytes(&out, "abcж".as_bytes()));
    assert!(is_bytes(&out, "abcж"));
    let list = vec![b"x".to_vec(), Vec::new()];
    assert_eq!(copy_list(&list), list);
    assert_eq!(copy_slice(&list[..1]), list[..1].to_vec());
    let mut wire = Vec::new();
    append_be16(&mut wire, 0x0102);
    append_be32(&mut wire, 0x0304_0506);
    assert_eq!(wire, vec![1, 2, 3, 4, 5, 6]);
    assert_eq!(read_be16(&wire), 0x0102);
    assert_eq!(read_be32(&wire[2..]), 0x0304_0506);
}
