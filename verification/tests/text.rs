use buddy2api::text::{
    after_prefix, before_suffix, has_char, joined, parse_i64, same_text, split, split_once, trim,
    trim_back, trim_front, trim_suffixes, CharClass,
};

#[test]
fn trim_agrees_with_the_standard_library() {
    let samples = [
        "",
        " ",
        "a",
        "  a b  ",
        "\u{9}\u{a}\u{b}\u{c}\u{d}x\u{85}",
        "\u{a0}\u{1680}\u{2000}\u{200a}y\u{2028}\u{2029}\u{202f}\u{205f}\u{3000}",
        "\u{200b}z\u{feff}",
        "\u{180e}w",
    ];
    for sample in samples {
        assert_eq!(trim(sample), sample.trim());
        assert_eq!(trim(trim(sample)), trim(sample));
    }
}

#[test]
fn white_space_is_that_of_the_standard_library() {
    for code in 0..=0x10ffff {
        if let Some(c) = char::from_u32(code) {
            assert_eq!(CharClass::White.contains(c), c.is_whitespace(), "{code:x}");
        }
    }
}

#[test]
fn ends_are_cut_by_class_and_by_suffix() {
    assert_eq!(trim_front("xXx1x", CharClass::Times), "1x");
    assert_eq!(trim_back("//a//", CharClass::Slash), "//a");
    assert_eq!(trim_suffixes("ababab", "ab"), "");
    assert_eq!(trim_suffixes("cabab", "ab"), "c");
    assert_eq!(trim_suffixes("cabab", ""), "cabab");
    assert_eq!(after_prefix("中文字", "中"), Some("文字"));
    assert_eq!(after_prefix("a", "ab"), None);
    assert_eq!(before_suffix("中文字", "字"), Some("中文"));
    assert_eq!(before_suffix("b", "ab"), None);
}

#[test]
fn texts_are_searched_and_split() {
    assert!(has_char("a/b", '/'));
    assert!(!has_char("", '/'));
    assert_eq!(split_once("k=v=w", '='), Some(("k", "v=w")));
    assert_eq!(split_once("=", '='), Some(("", "")));
    assert_eq!(split_once("k", '='), None);
    assert_eq!(split("", '&'), vec![""]);
    assert_eq!(split("a&&b&", '&'), vec!["a", "", "b", ""]);
    assert_eq!(joined("a", "文"), "a文");
    assert!(same_text("a", "a"));
    assert!(!same_text("a", "A"));
}

#[test]
fn integers_are_read_as_by_the_standard_library() {
    let samples = [
        "0", "7", "-7", "+7", "007", "-0", "", "+", "-", "+-1", "--1", " 1", "1 ", "1_0", "1.0",
        "0x1", "９", "9223372036854775807", "9223372036854775808", "-9223372036854775808",
        "-9223372036854775809", "99999999999999999999999999999999999999999999",
        "-99999999999999999999999999999999999999999999", "00000000000000000000000000000000012",
        "9999999999999999999x",
    ];
    for sample in samples {
        assert_eq!(parse_i64(sample), sample.parse::<i64>().ok(), "{sample}");
    }
}
