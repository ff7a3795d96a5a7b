use code_uploader::text::{char_is_whitespace, trim};

#[test]
fn whitespace_is_what_the_standard_library_calls_whitespace() {
    for c in '\u{0}'..=char::MAX {
        assert_eq!(char_is_whitespace(c), c.is_whitespace(), "U+{:04X}", c as u32);
    }
}

#[test]
fn whitespace_holds_the_named_characters() {
    for c in [' ', '\t', '\n', '\u{0B}', '\u{0C}', '\r', '\u{85}', '\u{A0}', '\u{1680}'] {
        assert!(char_is_whitespace(c));
    }
    for c in ['\u{2000}', '\u{200A}', '\u{2028}', '\u{2029}', '\u{202F}', '\u{205F}', '\u{3000}'] {
        assert!(char_is_whitespace(c));
    }
    for c in ['a', '0', '/', '\u{8}', '\u{E}', '\u{200B}', '\u{180E}', '\u{FEFF}'] {
        assert!(!char_is_whitespace(c));
    }
}

#[test]
fn trim_removes_whitespace_at_both_ends_only() {
    assert_eq!(trim("  /usr/bin/rustfmt\n"), "/usr/bin/rustfmt");
    assert_eq!(trim("\r\n\t a b \u{3000}"), "a b");
    assert_eq!(trim("a  b"), "a  b");
    assert_eq!(trim("x"), "x");
}

#[test]
fn trim_of_nothing_but_whitespace_is_empty() {
    assert_eq!(trim(""), "");
    assert_eq!(trim(" "), "");
    assert_eq!(trim(" \n\t\u{2003} "), "");
}

#[test]
fn trim_keeps_characters_of_several_bytes() {
    assert_eq!(trim(" \u{e9}t\u{e9} "), "\u{e9}t\u{e9}");
    assert_eq!(trim("\u{1F600}\n"), "\u{1F600}");
    assert_eq!(trim("\u{A0}\u{4E2D}\u{6587}\u{A0}"), "\u{4E2D}\u{6587}");
}

#[test]
fn trim_agrees_with_the_standard_library() {
    let samples = [
        "",
        " ",
        "a",
        " a",
        "a ",
        " a ",
        "\n/home/u/.rustup/toolchains/stable/bin/rustfmt\n",
        "\u{2028}x\u{2029}",
        "\u{200B} x \u{200B}",
        "  two  words  ",
        "\u{85}\u{1680}mid dle\u{205F}\u{202F}",
    ];
    for sample in samples {
        assert_eq!(trim(sample), sample.trim(), "{:?}", sample);
    }
}
