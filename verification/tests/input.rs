use rustic_print::input::{
    eq_ignore_ascii_case, parse_index, starts_with, to_ascii_lower, trim, whitespace,
};

#[test]
fn trim_removes_white_space_at_both_ends() {
    assert_eq!(trim("  yes \t\r\n"), "yes");
    assert_eq!(trim("a b"), "a b");
    assert_eq!(trim("  a  b  "), "a  b");
    assert_eq!(trim(""), "");
    assert_eq!(trim(" \n\t "), "");
    assert_eq!(trim("x"), "x");
}

#[test]
fn trim_agrees_with_the_standard_library() {
    let samples = [
        "\u{85}next line\u{85}",
        "\u{a0}no-break\u{a0}",
        "\u{1680}ogham\u{1680}",
        "\u{2000}\u{2001}\u{2002}\u{2003}\u{2004}\u{2005}quads\u{2006}\u{2007}\u{2008}\u{2009}\u{200a}",
        "\u{2028}line\u{2029}",
        "\u{202f}narrow\u{205f}",
        "\u{3000}ideographic\u{3000}",
        "\u{200b}zero width\u{200b}",
        "\u{180e}vowel separator\u{180e}",
        "\u{feff}mark\u{feff}",
        "\u{1c}separator\u{1f}",
        "\u{b}vertical tab\u{c}",
        "\u{8}backspace\u{e}",
        " é ",
        "  你好  ",
    ];
    for sample in samples {
        assert_eq!(trim(sample), sample.trim());
    }
}

#[test]
fn white_space_is_what_unicode_says() {
    for code in 0u32..0x3100 {
        if let Some(c) = char::from_u32(code) {
            assert_eq!(whitespace(c), c.is_whitespace());
        }
    }
    assert!(!whitespace('\u{feff}'));
    assert!(!whitespace('\u{1f600}'));
}

#[test]
fn ascii_capitals_become_small() {
    assert_eq!(to_ascii_lower('A'), 'a');
    assert_eq!(to_ascii_lower('Z'), 'z');
    assert_eq!(to_ascii_lower('m'), 'm');
    assert_eq!(to_ascii_lower('@'), '@');
    assert_eq!(to_ascii_lower('['), '[');
    assert_eq!(to_ascii_lower('É'), 'É');
    for code in 0u32..0x250 {
        if let Some(c) = char::from_u32(code) {
            assert_eq!(to_ascii_lower(c), c.to_ascii_lowercase());
        }
    }
}

#[test]
fn comparison_ignores_the_case_of_ascii_letters_only() {
    assert!(eq_ignore_ascii_case("YES", "yes"));
    assert!(eq_ignore_ascii_case("yEs", "Yes"));
    assert!(eq_ignore_ascii_case("", ""));
    assert!(!eq_ignore_ascii_case("yes", "ye"));
    assert!(!eq_ignore_ascii_case("yes", "yep"));
    assert!(!eq_ignore_ascii_case("É", "é"));
    assert!(eq_ignore_ascii_case("é", "é"));
}

#[test]
fn prefix_is_told_character_by_character() {
    assert!(starts_with("option 1", "opt"));
    assert!(starts_with("option 1", ""));
    assert!(starts_with("option 1", "option 1"));
    assert!(!starts_with("option 1", "option 12"));
    assert!(!starts_with("option 1", "Opt"));
    assert!(!starts_with("", "a"));
    assert!(starts_with("héllo", "hé"));
}

#[test]
fn index_is_read_from_decimal_digits() {
    assert_eq!(parse_index("0", 3), Some(0));
    assert_eq!(parse_index("1", 3), Some(1));
    assert_eq!(parse_index("2", 3), Some(2));
    assert_eq!(parse_index("+2", 3), Some(2));
    assert_eq!(parse_index("002", 3), Some(2));
    assert_eq!(parse_index("17", 100), Some(17));
    assert_eq!(parse_index("99", 100), Some(99));
}

#[test]
fn index_out_of_range_is_none() {
    assert_eq!(parse_index("3", 3), None);
    assert_eq!(parse_index("100", 100), None);
    assert_eq!(parse_index("0", 0), None);
    assert_eq!(parse_index("18446744073709551615", 10), None);
    assert_eq!(parse_index("18446744073709551616", 10), None);
    assert_eq!(parse_index("99999999999999999999999999", usize::MAX), None);
    assert_eq!(
        parse_index("18446744073709551614", usize::MAX),
        "18446744073709551614".parse::<usize>().ok()
    );
}

#[test]
fn what_is_no_number_is_no_index() {
    for input in [
        "", "+", "-1", "-0", "++1", "1+", " 1", "1 ", "1a", "a1", "zzz", "1.0", "٣", "0x1", "１",
    ] {
        assert_eq!(parse_index(input, 10), None);
        assert_eq!(
            parse_index(input, 10),
            input.parse::<usize>().ok().filter(|index| *index < 10)
        );
    }
}
