use speech_pipeline::text::{
    chars_of, decimal_string, is_whitespace, join, owned, split_words, string_from_chars, trim,
};

#[test]
fn trim_removes_unicode_white_space() {
    assert_eq!(trim("  hei \n"), "hei");
    assert_eq!(trim("\u{3000}olá\u{2003}"), "olá");
    assert_eq!(trim(""), "");
    assert_eq!(trim(" \t "), "");
    assert_eq!(trim("a b"), "a b");
    for s in ["  x ", "\u{85}y\u{a0}", "z", " \u{2028} "] {
        assert_eq!(trim(s), s.trim());
    }
}

#[test]
fn whitespace_matches_std() {
    for c in ['\t', '\n', ' ', '\u{85}', '\u{a0}', '\u{1680}', '\u{2000}', '\u{200a}', '\u{2028}',
        '\u{2029}', '\u{202f}', '\u{205f}', '\u{3000}', 'a', '0', '\u{200b}', '\u{180e}']
    {
        assert_eq!(is_whitespace(c), c.is_whitespace(), "{:?}", c);
    }
}

#[test]
fn split_words_matches_split_whitespace() {
    for s in ["", "  ", "a", " a  b ", "olá mundo\ttudo\nbem", "x\u{3000}y"] {
        let got = split_words(&chars_of(s));
        let expected: Vec<String> = s.split_whitespace().map(|w| w.to_string()).collect();
        assert_eq!(got, expected);
    }
}

#[test]
fn join_puts_separator_between_neighbours() {
    let w = vec!["a".to_string(), "b".to_string(), "c".to_string()];
    assert_eq!(join(&w, ", "), "a, b, c");
    assert_eq!(join(&vec![], ", "), "");
    assert_eq!(join(&vec!["one".to_string()], "-"), "one");
}

#[test]
fn decimal_string_writes_numbers() {
    assert_eq!(decimal_string(0), "0");
    assert_eq!(decimal_string(7), "7");
    assert_eq!(decimal_string(1234), "1234");
    assert_eq!(decimal_string(u64::MAX), u64::MAX.to_string());
}

#[test]
fn chars_round_trip() {
    let s = "ção ü";
    let v = chars_of(s);
    assert_eq!(v.len(), 5);
    assert_eq!(string_from_chars(&v), s);
    assert_eq!(owned(s), s);
}
