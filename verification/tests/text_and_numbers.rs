use slowhttptest_gui::number::{format_i64, parse_i64};
use slowhttptest_gui::text::{char_is_whitespace, contains_whitespace, trim};

#[test]
fn whitespace_is_the_unicode_white_space_property() {
    for code in 0..=0x10FFFFu32 {
        if let Some(c) = char::from_u32(code) {
            assert_eq!(char_is_whitespace(c), c.is_whitespace(), "U+{:04X}", code);
        }
    }
}

const SAMPLES: [&str; 24] = [
    "",
    " ",
    "\t\n\r ",
    "a",
    " a",
    "a ",
    "  a b  ",
    "\u{3000}wide\u{3000}",
    "\u{a0}nbsp\u{a0}",
    "\u{85}next line\u{2028}",
    "\u{200b}zero width is no whitespace\u{200b}",
    "\u{feff}bom",
    "inner\ttab",
    "\u{1680}ogham\u{205f}",
    "é ü",
    "  日本語  ",
    "50",
    " 50 ",
    "+50",
    "-50",
    "x\u{2000}\u{2001}\u{2002}\u{200a}",
    "\u{b}\u{c}vt ff\u{1c}\u{1f}",
    "\u{202f}narrow\u{2029}",
    "😀 emoji 😀 ",
];

#[test]
fn trim_agrees_with_the_standard_library() {
    for s in SAMPLES {
        assert_eq!(trim(s), s.trim(), "{:?}", s);
    }
}

#[test]
fn trim_exact_values() {
    assert_eq!(trim("  a b  "), "a b");
    assert_eq!(trim("\t\n"), "");
    assert_eq!(trim(""), "");
    assert_eq!(trim("x"), "x");
    assert_eq!(trim("\u{3000}60\u{a0}"), "60");
    assert_eq!(trim(trim("  a  b ")), trim("  a  b "));
}

#[test]
fn contains_whitespace_agrees_with_the_standard_library() {
    for s in SAMPLES {
        assert_eq!(contains_whitespace(s), s.chars().any(|c| c.is_whitespace()), "{:?}", s);
    }
    assert!(contains_whitespace("a b"));
    assert!(contains_whitespace("a\tb"));
    assert!(!contains_whitespace("a-b"));
    assert!(!contains_whitespace(""));
}

const NUMERALS: [&str; 40] = [
    "",
    "0",
    "-0",
    "+0",
    "7",
    "+7",
    "-7",
    "007",
    "-007",
    "+007",
    "50",
    "4096",
    "9223372036854775807",
    "9223372036854775808",
    "+9223372036854775807",
    "-9223372036854775808",
    "-9223372036854775809",
    "0000000000000000000000000000009223372036854775807",
    "-0000000000000000000000000000009223372036854775808",
    "18446744073709551616",
    "99999999999999999999999999999999999999999",
    "-",
    "+",
    "--1",
    "++1",
    "+-1",
    "-+1",
    "1-",
    "1+1",
    " 1",
    "1 ",
    "1_000",
    "1,000",
    "1.0",
    "1e3",
    "0x10",
    "a",
    "１２",
    "٣",
    "12\u{0}",
];

#[test]
fn parse_agrees_with_the_standard_library() {
    for s in NUMERALS {
        assert_eq!(parse_i64(s), s.parse::<i64>().ok(), "{:?}", s);
    }
}

#[test]
fn parse_exact_values() {
    assert_eq!(parse_i64("50"), Some(50));
    assert_eq!(parse_i64("-12"), Some(-12));
    assert_eq!(parse_i64("+12"), Some(12));
    assert_eq!(parse_i64("0012"), Some(12));
    assert_eq!(parse_i64("-9223372036854775808"), Some(i64::MIN));
    assert_eq!(parse_i64("9223372036854775807"), Some(i64::MAX));
    assert_eq!(parse_i64("9223372036854775808"), None);
    assert_eq!(parse_i64(""), None);
    assert_eq!(parse_i64("-"), None);
    assert_eq!(parse_i64("12a"), None);
    assert_eq!(parse_i64(" 12"), None);
}

const NUMBERS: [i64; 22] = [
    0,
    1,
    -1,
    9,
    10,
    -10,
    11,
    99,
    100,
    101,
    -999,
    1000,
    4096,
    123456789,
    -123456789,
    1000000000000,
    i64::MAX,
    i64::MAX - 1,
    i64::MIN,
    i64::MIN + 1,
    9007199254740993,
    -9007199254740993,
];

#[test]
fn format_agrees_with_the_standard_library() {
    for n in NUMBERS {
        assert_eq!(format_i64(n), n.to_string());
    }
}

#[test]
fn format_exact_values() {
    assert_eq!(format_i64(0), "0");
    assert_eq!(format_i64(7), "7");
    assert_eq!(format_i64(-7), "-7");
    assert_eq!(format_i64(2000), "2000");
    assert_eq!(format_i64(i64::MIN), "-9223372036854775808");
    assert_eq!(format_i64(i64::MAX), "9223372036854775807");
}

#[test]
fn formatted_numbers_read_back() {
    for n in NUMBERS {
        assert_eq!(parse_i64(&format_i64(n)), Some(n));
        assert_eq!(trim(&format_i64(n)), format_i64(n));
    }
}
