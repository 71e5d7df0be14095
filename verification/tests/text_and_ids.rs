use paste_misterio_me::ids::{new_uuid, parse_uuid, uuid_to_text};
use paste_misterio_me::text::{
    chars_of, flatten_quotes, i64_text, is_space_char, last_piece_of, last_word_of, strip_cr,
    trim, u64_text,
};

#[test]
fn decimal_rendering() {
    assert_eq!(u64_text(0), "0");
    assert_eq!(u64_text(404), "404");
    assert_eq!(u64_text(u64::MAX), u64::MAX.to_string());
    assert_eq!(i64_text(-86400), "-86400");
    assert_eq!(i64_text(i64::MIN), i64::MIN.to_string());
    assert_eq!(i64_text(7), "7");
}

#[test]
fn whitespace_matches_std() {
    for c in ['\t', '\n', '\u{0B}', '\u{0C}', '\r', ' ', '\u{85}', '\u{A0}', '\u{1680}', '\u{2000}', '\u{200A}', '\u{2028}', '\u{2029}', '\u{202F}', '\u{205F}', '\u{3000}', 'a', '_', '\u{200B}', '\u{FEFF}'] {
        assert_eq!(is_space_char(c), c.is_whitespace(), "{:?}", c);
    }
}

#[test]
fn trim_cuts_both_ends() {
    assert_eq!(trim("  abc \n"), "abc");
    assert_eq!(trim("abc"), "abc");
    assert_eq!(trim(" \t\n "), "");
    assert_eq!(trim(""), "");
    assert_eq!(trim("\u{3000}a b\u{A0}"), "a b");
}

#[test]
fn last_word_is_what_split_whitespace_gives() {
    for s in ["Bearer abc", "abc", "  x  y  ", "", "   ", "Bearer  \tkey\n"] {
        assert_eq!(last_word_of(s), s.split_whitespace().last().map(|w| w.to_string()), "{:?}", s);
    }
}

#[test]
fn last_piece_is_what_split_gives() {
    for s in ["main.rs", "a.tar.gz", "Makefile", "", "trailing.", ".hidden"] {
        assert_eq!(last_piece_of(s, '.'), s.split('.').last().unwrap(), "{:?}", s);
    }
}

#[test]
fn carriage_returns_are_removed() {
    assert_eq!(strip_cr("a\r\nb\r\n"), "a\nb\n");
    assert_eq!(strip_cr("\r"), "");
    assert_eq!(strip_cr("plain"), "plain");
}

#[test]
fn quotes_are_flattened_like_the_replacements() {
    for s in [r#"Error("bad \"thing\"")"#, r#"a\'b"#, r#"x\"y"#, "none", r#"\\"#] {
        let expected = s.replace("\"", "'").replace("\\'", "'");
        assert_eq!(flatten_quotes(s), expected, "{:?}", s);
    }
}

#[test]
fn chars_are_listed_in_order() {
    assert_eq!(chars_of("héllo"), vec!['h', 'é', 'l', 'l', 'o']);
}

#[test]
fn uuid_text_is_hyphenated_lowercase() {
    let id: u128 = 0x67e5504410b1426f9247bb680e5fe0c8;
    assert_eq!(uuid_to_text(id), "67e55044-10b1-426f-9247-bb680e5fe0c8");
    assert_eq!(parse_uuid("67e55044-10b1-426f-9247-bb680e5fe0c8"), Some(id));
    assert_eq!(parse_uuid("not a uuid"), None);
}

#[test]
fn new_uuids_are_version_four_and_read_back() {
    let id = new_uuid();
    assert_eq!((id >> 76) & 0xf, 4);
    assert_eq!((id >> 62) & 0x3, 2);
    assert_eq!(parse_uuid(&uuid_to_text(id)), Some(id));
    assert_ne!(new_uuid(), id);
}
