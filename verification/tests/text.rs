use courtyard::text::{
    blank, chars_of, comes_before, chain, contains, decimal_string, join, join_from,
    lines_with_content, same_text, slice_string, split, split_words, starts_with, string_of, trim,
    white_space, Delimiter,
};

fn strings(items: &[&str]) -> Vec<String> {
    items.iter().map(|s| s.to_string()).collect()
}

#[test]
fn white_space_is_the_unicode_set() {
    for code in 0u32..=0x10FFFF {
        if let Some(c) = char::from_u32(code) {
            assert_eq!(white_space(c), c.is_whitespace(), "U+{:04X}", code);
        }
    }
}

#[test]
fn chars_and_back() {
    let v = chars_of("héllo …");
    assert_eq!(v, vec!['h', 'é', 'l', 'l', 'o', ' ', '…']);
    assert_eq!(string_of(&v), "héllo …");
    assert_eq!(slice_string(&v, 1, 5), "éllo");
    assert_eq!(slice_string(&v, 3, 3), "");
    assert_eq!(chars_of(""), Vec::<char>::new());
}

#[test]
fn trim_agrees_with_std() {
    let samples = [
        "",
        " ",
        "a",
        "  a b  ",
        "\t\r\n x \u{3000}",
        "\u{a0}y\u{2003}",
        "no-space",
        " \n ",
        "inner  space kept",
    ];
    for s in samples {
        assert_eq!(trim(s), s.trim(), "{:?}", s);
        assert_eq!(blank(&chars_of(s)), s.trim().is_empty(), "{:?}", s);
    }
    assert_eq!(trim("  a b  "), "a b");
}

#[test]
fn split_keeps_every_piece() {
    let pieces = split(&chars_of("/a::/b:"), Delimiter::Char(':'));
    assert_eq!(pieces, strings(&["/a", "", "/b", ""]));
    assert_eq!(split(&chars_of(""), Delimiter::Char(':')), strings(&[""]));
    assert_eq!(split(&chars_of("abc"), Delimiter::Char(':')), strings(&["abc"]));
    assert_eq!(split(&chars_of("a b\tc"), Delimiter::WhiteSpace), strings(&["a", "b", "c"]));
}

#[test]
fn lines_with_content_agree_with_std() {
    let samples = [
        "",
        "a",
        "a\n",
        "a\r\nb\n\n  c  \n",
        "\n\n",
        " x \r\n\r\n y",
        "one\rtwo\nthree",
    ];
    for s in samples {
        let expected: Vec<String> =
            s.lines().map(|l| l.trim()).filter(|l| !l.is_empty()).map(String::from).collect();
        assert_eq!(lines_with_content(s), expected, "{:?}", s);
    }
    assert_eq!(lines_with_content("a\r\nb\n\n  c  \n"), strings(&["a", "b", "c"]));
}

#[test]
fn words_agree_with_std() {
    let samples = ["", "  ", "a", " a  b\tc\n", "x=1 OLLAMA_MODELS=/m y", "\u{3000}wide\u{3000}"];
    for s in samples {
        let expected: Vec<String> = s.split_whitespace().map(String::from).collect();
        assert_eq!(split_words(s), expected, "{:?}", s);
    }
}

#[test]
fn contains_agrees_with_std() {
    let cases = [
        ("", ""),
        ("abc", ""),
        ("", "a"),
        ("abc", "abc"),
        ("abc", "bc"),
        ("abc", "abcd"),
        ("parser.add_argument('--lang')", "--lang"),
        ("add_lang_arg(parser)", "add_lang_arg"),
        ("aab", "ab"),
        ("ababac", "abac"),
        ("nothing here", "--lang"),
    ];
    for (hay, needle) in cases {
        assert_eq!(contains(hay, needle), hay.contains(needle), "{:?} in {:?}", needle, hay);
    }
    assert!(contains("x --lang y", "--lang"));
    assert!(!contains("x -lang y", "--lang"));
}

#[test]
fn starts_with_agrees_with_std() {
    let cases = [("", ""), ("a", ""), ("", "a"), ("OLLAMA_MODELS=/x", "OLLAMA_MODELS="), ("ab", "b")];
    for (s, p) in cases {
        assert_eq!(starts_with(&chars_of(s), &chars_of(p)), s.starts_with(p), "{:?} {:?}", s, p);
    }
}

#[test]
fn join_puts_the_separator_between() {
    assert_eq!(join(&strings(&[]), "\n"), "");
    assert_eq!(join(&strings(&["a"]), "\n"), "a");
    assert_eq!(join(&strings(&["a", "b", "c"]), " | "), "a | b | c");
    assert_eq!(join_from(&strings(&["a", "b", "c"]), 1, "\n"), "b\nc");
    assert_eq!(join_from(&strings(&["a", "b", "c"]), 3, "\n"), "");
}

#[test]
fn decimal_agrees_with_std() {
    for n in [0u64, 1, 9, 10, 11, 99, 100, 143, 1800, 4294967295, u64::MAX] {
        assert_eq!(decimal_string(n), n.to_string());
    }
    assert_eq!(decimal_string(1800), "1800");
}

#[test]
fn order_agrees_with_std() {
    let samples = ["", "a", "ab", "b", "legacy", "20260101_120000", "20260101_120501", "é", "z", "Z"];
    for a in samples {
        for b in samples {
            assert_eq!(comes_before(&chars_of(a), &chars_of(b)), a <= b, "{:?} {:?}", a, b);
        }
    }
}

#[test]
fn same_text_and_concat() {
    assert!(same_text("log", "log"));
    assert!(!same_text("log", "logs"));
    assert!(!same_text("log", "lag"));
    assert!(same_text("", ""));
    assert_eq!(chain("a", "b"), "ab");
    assert_eq!(chain("", ""), "");
}
