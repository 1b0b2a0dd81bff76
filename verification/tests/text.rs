use femail::text::{chars_of, decimal_text, is_white_space, trim};

#[test]
fn trim_removes_white_space_at_both_ends() {
    assert_eq!(trim("  abc123 \n"), "abc123");
    assert_eq!(trim("abc123"), "abc123");
    assert_eq!(trim("\t\r\n token"), "token");
    assert_eq!(trim("token\u{3000}"), "token");
}

#[test]
fn trim_keeps_white_space_inside() {
    assert_eq!(trim(" a b\tc "), "a b\tc");
}

#[test]
fn trim_knows_white_space_outside_ascii() {
    assert_eq!(trim("\u{2003}x\u{a0}"), "x");
    assert_eq!(trim("\u{85}\u{1680}é\u{2028}\u{2029}\u{202f}\u{205f}"), "é");
}

#[test]
fn trim_leaves_what_only_looks_like_white_space() {
    assert_eq!(trim("\u{200b}x\u{200b}"), "\u{200b}x\u{200b}");
    assert_eq!(trim("\u{8}x\u{e}"), "\u{8}x\u{e}");
}

#[test]
fn trim_of_blank_text_is_empty() {
    assert_eq!(trim(""), "");
    assert_eq!(trim(" "), "");
    assert_eq!(trim(" \t\r\n\u{a0}\u{2000}\u{200a}"), "");
}

#[test]
fn trim_agrees_with_std() {
    let samples = [
        "",
        " ",
        "abc",
        "  abc",
        "abc  ",
        " a  b ",
        "\n\nline\n",
        "\u{feff}bom ",
        " \u{1f4c1} ",
        "\u{2000}\u{2001}x y\u{2009}",
    ];
    for sample in samples {
        assert_eq!(trim(sample), sample.trim());
    }
}

#[test]
fn white_space_is_what_std_calls_white_space() {
    let mut code: u32 = 0;
    while code <= 0x10ffff {
        if let Some(c) = char::from_u32(code) {
            assert_eq!(is_white_space(c), c.is_whitespace(), "U+{:04X}", code);
        }
        code += 1;
    }
}

#[test]
fn white_space_at_the_edges_of_its_ranges() {
    assert!(!is_white_space('\u{8}'));
    assert!(is_white_space('\u{9}'));
    assert!(is_white_space('\u{d}'));
    assert!(!is_white_space('\u{e}'));
    assert!(is_white_space(' '));
    assert!(!is_white_space('\u{1fff}'));
    assert!(is_white_space('\u{2000}'));
    assert!(is_white_space('\u{200a}'));
    assert!(!is_white_space('\u{200b}'));
    assert!(!is_white_space('a'));
}

#[test]
fn chars_of_gives_each_character() {
    assert_eq!(chars_of(""), Vec::<char>::new());
    assert_eq!(chars_of("aé📁"), vec!['a', 'é', '📁']);
}

#[test]
fn decimal_text_writes_numbers() {
    assert_eq!(decimal_text(0), "0");
    assert_eq!(decimal_text(7), "7");
    assert_eq!(decimal_text(10), "10");
    assert_eq!(decimal_text(404), "404");
    assert_eq!(decimal_text(1000), "1000");
    assert_eq!(decimal_text(65535), "65535");
}

#[test]
fn decimal_text_agrees_with_std() {
    let mut n: u16 = 0;
    loop {
        assert_eq!(decimal_text(n), format!("{}", n));
        if n == u16::MAX {
            break;
        }
        n += 1;
    }
}
