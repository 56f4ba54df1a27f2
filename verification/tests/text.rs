//! Bytes and text.
use one_kvm::bytes::{
    push_be16, push_be32, push_le16, push_le32, read_be16, read_le16, read_le32, same_bytes,
};
use one_kvm::text::{
    append_signed, char_is_space, has_prefix, read_unsigned, read_utf8, split_at_char, str_chars,
    str_has, str_same, string_of, text_lines, text_words, to_decimal, trimmed,
};
use one_kvm::text_map::TextMap;

fn chars(s: &str) -> Vec<char> {
    s.chars().collect()
}

fn texts(parts: Vec<&[char]>) -> Vec<String> {
    parts.into_iter().map(|p| p.iter().collect()).collect()
}

#[test]
fn numbers_are_written_and_read() {
    let mut out = Vec::new();
    push_be16(&mut out, 0x0102);
    push_le16(&mut out, 0x0304);
    push_be32(&mut out, 0x0506_0708);
    push_le32(&mut out, 0x090a_0b0c);
    assert_eq!(out, vec![1, 2, 4, 3, 5, 6, 7, 8, 0x0c, 0x0b, 0x0a, 9]);
    assert_eq!(read_be16(1, 2), 0x0102);
    assert_eq!(read_le16(4, 3), 0x0304);
    assert_eq!(read_le32(0x0c, 0x0b, 0x0a, 9), 0x090a_0b0c);
    assert!(same_bytes(b"ab", b"ab"));
    assert!(!same_bytes(b"ab", b"abc"));
}

#[test]
fn bytes_are_text_or_not() {
    assert_eq!(read_utf8("é".as_bytes()), Some("é"));
    assert_eq!(read_utf8(b"\xff"), None);
    assert_eq!(str_chars("aé"), vec!['a', 'é']);
    assert_eq!(string_of(&['a', 'é']), "aé");
}

#[test]
fn lines_and_words() {
    assert_eq!(texts(text_lines(&chars("a\r\nb\n\nc"))), vec!["a", "b", "", "c"]);
    assert_eq!(texts(text_lines(&chars("a\n"))), vec!["a"]);
    assert_eq!(texts(text_lines(&chars("a\r"))), vec!["a\r"]);
    assert!(text_lines(&chars("")).is_empty());
    assert_eq!(texts(text_words(&chars("  a\tb\u{3000}c "))), vec!["a", "b", "c"]);
    assert_eq!(texts(split_at_char(&chars("a;;b"), ';')), vec!["a", "", "b"]);
    assert_eq!(trimmed(&chars("\u{a0} x ")), &['x']);
    assert!(char_is_space('\u{2003}') && !char_is_space('\u{200b}'));
    assert!(has_prefix(&chars("abc"), &chars("ab")));
    assert!(str_has("abc", "bc") && str_has("abc", "") && !str_has("abc", "ac"));
    assert!(str_same("a", "a") && !str_same("a", "b"));
}

#[test]
fn numbers_in_decimal() {
    assert_eq!(read_unsigned(&chars("007"), 100), Some(7));
    assert_eq!(read_unsigned(&chars("+7"), 100), Some(7));
    assert_eq!(read_unsigned(&chars("101"), 100), None);
    assert_eq!(read_unsigned(&chars(""), 100), None);
    assert_eq!(read_unsigned(&chars("+"), 100), None);
    assert_eq!(read_unsigned(&chars("-1"), 100), None);
    assert_eq!(read_unsigned(&chars("18446744073709551615"), u64::MAX), Some(u64::MAX));
    assert_eq!(read_unsigned(&chars("18446744073709551616"), u64::MAX), None);
    assert_eq!(to_decimal(0), "0");
    assert_eq!(to_decimal(u64::MAX), "18446744073709551615");
    let mut s = "n=".to_string();
    append_signed(&mut s, i64::MIN);
    assert_eq!(s, "n=-9223372036854775808");
}

#[test]
fn a_map_keeps_one_value_for_a_key() {
    let mut map = TextMap::new();
    assert!(map.any_key().is_none());
    map.insert("a".to_string(), 1);
    map.insert("b".to_string(), 2);
    map.insert("a".to_string(), 3);
    assert_eq!(map.get("a"), Some(&3));
    assert_eq!(map.keys().len(), 2);
    assert!(map.contains_key("b"));
    assert_eq!(map.remove("b"), Some(2));
    assert_eq!(map.remove("b"), None);
    assert_eq!(map.any_key().map(|k| k.as_str()), Some("a"));
}
