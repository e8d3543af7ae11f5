use frename::text::trim_end;
use frename::text::{counted_string, decimal_string, str_eq, trim, white_space};

#[test]
fn numbers_are_written_in_decimal() {
    assert_eq!(decimal_string(0), "0");
    assert_eq!(decimal_string(7), "7");
    assert_eq!(decimal_string(10), "10");
    assert_eq!(decimal_string(1203), "1203");
    assert_eq!(decimal_string(usize::MAX), usize::MAX.to_string());
}

#[test]
fn counted_nouns_take_the_singular_for_one() {
    assert_eq!(counted_string(1, "file", "files"), "1 file");
    assert_eq!(counted_string(0, "file", "files"), "0 files");
    assert_eq!(counted_string(25, "file", "files"), "25 files");
}

#[test]
fn strings_compare_by_their_characters() {
    assert!(str_eq("goat", "goat"));
    assert!(!str_eq("goat", "Goat"));
    assert!(!str_eq("goat", "goats"));
    assert!(str_eq("", ""));
}

#[test]
fn trim_takes_white_space_off_both_ends() {
    assert_eq!(trim("  goat \n"), "goat");
    assert_eq!(trim("\u{3000}go at\u{a0}"), "go at");
    assert_eq!(trim("   "), "");
    assert_eq!(trim(""), "");
    for s in ["  a b  ", "\t\r\nx", "y\u{2028}", "\u{200b}z"] {
        assert_eq!(trim(s), s.trim());
    }
}

#[test]
fn white_space_is_what_std_calls_white_space() {
    for c in ['\u{0}', '\t', ' ', 'a', '\u{85}', '\u{a0}', '\u{1680}', '\u{2000}', '\u{200a}', '\u{200b}', '\u{202f}', '\u{205f}', '\u{3000}', '\u{feff}'] {
        assert_eq!(white_space(c), c.is_whitespace(), "{c:?}");
    }
}

#[test]
fn trim_end_keeps_the_start() {
    assert_eq!(trim_end("  a b \n\u{3000}"), "  a b");
    assert_eq!(trim_end(" \t"), "");
    assert_eq!(trim_end("x"), "x");
}
