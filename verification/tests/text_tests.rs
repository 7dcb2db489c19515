use load_feedback::text::{char_is_white_space, starts_with, trim};

#[test]
fn white_space_is_what_std_calls_white_space() {
    let mut code: u32 = 0;
    while code <= 0x10ffff {
        if let Some(c) = char::from_u32(code) {
            assert_eq!(char_is_white_space(c), c.is_whitespace());
        }
        code += 1;
    }
}

#[test]
fn trim_removes_both_ends() {
    assert_eq!(trim("  load:27 \t\r\n"), "load:27");
    assert_eq!(trim("load:27"), "load:27");
    assert_eq!(trim(" a b "), "a b");
}

#[test]
fn trim_of_blank_text_is_empty() {
    assert_eq!(trim(""), "");
    assert_eq!(trim(" "), "");
    assert_eq!(trim(" \t\n\u{a0}\u{3000}"), "");
}

#[test]
fn trim_agrees_with_std() {
    let samples = [
        "",
        " ",
        "x",
        " x",
        "x ",
        "\u{2003}x y\u{2003}",
        "\u{85}\u{1680}value\u{2028}\u{2029}",
        "\u{200b}zero-width is kept\u{200b}",
        "  \u{e4}\u{1f600}  ",
        "\t\tinner\ttab\t\t",
    ];
    for sample in samples {
        assert_eq!(trim(sample), sample.trim());
    }
}

#[test]
fn starts_with_is_a_prefix_test() {
    assert!(starts_with("HTTPie/1.0.3", "HTTPie/1.0"));
    assert!(!starts_with("curl/7.0", "HTTPie/1.0"));
    assert!(starts_with("abc", ""));
    assert!(starts_with("", ""));
    assert!(!starts_with("", "a"));
    assert!(!starts_with("ab", "abc"));
    assert!(starts_with("abc", "abc"));
    assert!(!starts_with("xHTTPie/1.0", "HTTPie/1.0"));
}

#[test]
fn starts_with_agrees_with_std() {
    let texts = ["", "a", "ab", "\u{e4}b", "\u{e4}", "probe", "probe/2", "Probe"];
    for text in texts {
        for prefix in texts {
            assert_eq!(starts_with(text, prefix), text.starts_with(prefix));
        }
    }
}
