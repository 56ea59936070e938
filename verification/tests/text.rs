use chat_session::text::{decimal_string, is_whitespace_char, trim};

#[test]
fn trim_removes_both_ends() {
    assert_eq!(trim(" hi there "), "hi there");
    assert_eq!(trim("\t\n hello\r\n"), "hello");
    assert_eq!(trim("hello\n"), "hello");
}

#[test]
fn trim_keeps_inner_white_space() {
    assert_eq!(trim("  a  b \t c  "), "a  b \t c");
}

#[test]
fn trim_of_nothing_is_nothing() {
    assert_eq!(trim(""), "");
    assert_eq!(trim(" \t\r\n\u{3000}"), "");
}

#[test]
fn trim_leaves_clean_text_alone() {
    assert_eq!(trim("x"), "x");
    assert_eq!(trim("User Input: a"), "User Input: a");
}

#[test]
fn trim_handles_wide_characters() {
    assert_eq!(trim("\u{2003}h\u{e9}llo w\u{f6}rld\u{a0}"), "h\u{e9}llo w\u{f6}rld");
    assert_eq!(
        trim("\u{1680}\u{65e5}\u{672c}\u{8a9e} \u{1f600}\u{2028}"),
        "\u{65e5}\u{672c}\u{8a9e} \u{1f600}"
    );
    // The zero-width space and the Mongolian vowel separator are not white space.
    assert_eq!(trim("\u{200b}a\u{180e}"), "\u{200b}a\u{180e}");
}

#[test]
fn trim_is_idempotent() {
    let once = trim(" \n two words \t");
    assert_eq!(trim(once), once);
}

#[test]
fn white_space_is_what_std_says() {
    let mut n: u32 = 0;
    while n <= 0x10FFFF {
        if let Some(c) = char::from_u32(n) {
            assert_eq!(is_whitespace_char(c), c.is_whitespace(), "U+{:04X}", n);
        }
        n += 1;
    }
}

#[test]
fn trim_agrees_with_std_on_samples() {
    let samples = vec![
        "",
        " ",
        "a",
        " a",
        "a ",
        "  a b  ",
        "\n\n",
        "\u{85}x\u{85}",
        "\u{2000}\u{200a}mid dle\u{202f}\u{205f}",
        "\u{b}\u{c}text\u{2029}",
        "no-trim",
        " \u{1f980} ",
    ];
    for s in samples {
        assert_eq!(trim(s), s.trim());
    }
}

#[test]
fn trim_of_each_single_character_agrees_with_std() {
    let mut n: u32 = 0;
    while n < 0x3100 {
        if let Some(c) = char::from_u32(n) {
            let s = format!("{}a{}", c, c);
            assert_eq!(trim(&s), s.trim());
        }
        n += 1;
    }
}

#[test]
fn decimal_of_small_and_large_numbers() {
    assert_eq!(decimal_string(0), "0");
    assert_eq!(decimal_string(7), "7");
    assert_eq!(decimal_string(10), "10");
    assert_eq!(decimal_string(200), "200");
    assert_eq!(decimal_string(404), "404");
    assert_eq!(decimal_string(1009), "1009");
    assert_eq!(decimal_string(65535), "65535");
}

#[test]
fn decimal_agrees_with_std_on_every_number() {
    let mut n: u16 = 0;
    loop {
        assert_eq!(decimal_string(n), format!("{}", n));
        if n == u16::MAX {
            return;
        }
        n += 1;
    }
}
