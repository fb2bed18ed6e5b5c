use r2_proxy::text::chars_of;
use r2_proxy::text::prefixed;
use r2_proxy::text::is_whitespace;
use r2_proxy::text::join;
use r2_proxy::text::to_decimal;
use r2_proxy::text::trim;

#[test]
fn chars_of_keeps_every_character() {
    assert_eq!(chars_of("a.é/"), vec!['a', '.', 'é', '/']);
    assert_eq!(chars_of(""), Vec::<char>::new());
}

#[test]
fn is_whitespace_agrees_with_std_on_every_character() {
    let mut code: u32 = 0;
    while code <= 0x10ffff {
        if let Some(c) = char::from_u32(code) {
            assert_eq!(is_whitespace(c), c.is_whitespace(), "U+{:04X}", code);
        }
        code += 1;
    }
}

#[test]
fn trim_removes_white_space_at_both_ends_only() {
    assert_eq!(trim(" my-bucket "), "my-bucket");
    assert_eq!(trim("\t a b \r\n"), "a b");
    assert_eq!(trim("\u{3000}docs\u{a0}\u{2028}"), "docs");
    assert_eq!(trim("plain"), "plain");
}

#[test]
fn trim_of_white_space_alone_is_empty() {
    assert_eq!(trim(""), "");
    assert_eq!(trim("   "), "");
    assert_eq!(trim(" \u{85}\u{1680}\n"), "");
}

#[test]
fn trim_agrees_with_std() {
    let samples = [
        "",
        " ",
        "a",
        " a",
        "a ",
        "  a  b  ",
        "\u{200a}x\u{205f}",
        "\u{200b}x\u{200b}",
        "é ",
        " \u{feff}",
    ];
    for sample in samples {
        assert_eq!(trim(sample), sample.trim());
    }
}

#[test]
fn join_puts_the_separator_between_items() {
    let methods = vec!["GET".to_string(), "OPTIONS".to_string()];
    assert_eq!(join(&methods, ", "), "GET, OPTIONS");
    let three = vec!["a".to_string(), "".to_string(), "c".to_string()];
    assert_eq!(join(&three, "-"), "a--c");
}

#[test]
fn join_of_none_or_one_has_no_separator() {
    assert_eq!(join(&Vec::new(), ", "), "");
    assert_eq!(join(&vec!["*".to_string()], ", "), "*");
}

#[test]
fn to_decimal_writes_numbers_as_std_does() {
    assert_eq!(to_decimal(0), "0");
    assert_eq!(to_decimal(7), "7");
    assert_eq!(to_decimal(10), "10");
    assert_eq!(to_decimal(86400), "86400");
    assert_eq!(to_decimal(u64::MAX), "18446744073709551615");
    let mut n: u64 = 1;
    while n < u64::MAX / 7 {
        assert_eq!(to_decimal(n), n.to_string());
        assert_eq!(to_decimal(n - 1), (n - 1).to_string());
        n *= 7;
    }
}

#[test]
fn prefixed_puts_the_prefix_first() {
    assert_eq!(prefixed("Bearer ", "token"), "Bearer token");
    assert_eq!(prefixed("", ""), "");
}
