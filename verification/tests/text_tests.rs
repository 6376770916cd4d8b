use http_server::number::{read_decimal, write_decimal};
use http_server::text::{
    chars_of, cut, find, has_prefix, has_suffix, matches_at, same_text, skip_run, skip_run_back,
    slice_of, split_text, trim_text, CharClass,
};

fn chars(s: &str) -> Vec<char> {
    s.chars().collect()
}

fn pieces(s: &str, sep: &str) -> Vec<String> {
    split_text(&chars(s), &chars(sep)).iter().map(|p| p.iter().collect()).collect()
}

#[test]
fn chars_of_keeps_every_character() {
    assert_eq!(chars_of("a\u{e9}\u{1f600}\0"), vec!['a', '\u{e9}', '\u{1f600}', '\0']);
    assert_eq!(chars_of(""), Vec::<char>::new());
}

#[test]
fn slice_of_copies_a_range() {
    assert_eq!(slice_of(&chars("abcdef"), 1, 4), chars("bcd"));
    assert_eq!(slice_of(&chars("abc"), 3, 3), chars(""));
}

#[test]
fn matches_at_compares_in_place() {
    let v = chars("abcabc");
    assert!(matches_at(&v, &chars("bc"), 1));
    assert!(matches_at(&v, &chars("bc"), 4));
    assert!(!matches_at(&v, &chars("bc"), 0));
    assert!(!matches_at(&v, &chars("bc"), 5));
    assert!(!matches_at(&v, &chars("bc"), 7));
    assert!(matches_at(&v, &chars(""), 6));
}

#[test]
fn prefix_suffix_and_equality() {
    let v = chars("/api/search?id=1");
    assert!(has_prefix(&v, &chars("/api/search")));
    assert!(!has_prefix(&v, &chars("/api/list")));
    assert!(has_suffix(&chars("a.json"), &chars(".json")));
    assert!(!has_suffix(&chars("a.json"), &chars(".js")));
    assert!(!has_suffix(&chars("js"), &chars(".js")));
    assert!(same_text(&chars("GET"), &chars("GET")));
    assert!(!same_text(&chars("GET"), &chars("GE")));
    assert!(!same_text(&chars("GET"), &chars("GEX")));
}

#[test]
fn find_gives_the_first_occurrence() {
    let v = chars("a\r\n\r\nb\r\n\r\nc");
    assert_eq!(find(&v, &chars("\r\n\r\n"), 0), Some(1));
    assert_eq!(find(&v, &chars("\r\n\r\n"), 2), Some(6));
    assert_eq!(find(&v, &chars("\r\n\r\n"), 7), None);
    assert_eq!(find(&v, &chars("x"), 0), None);
    assert_eq!(find(&chars("ab"), &chars("abc"), 0), None);
    assert_eq!(find(&chars("ab"), &chars("a"), 5), None);
}

#[test]
fn cut_parts_at_the_first_occurrence() {
    assert_eq!(cut(&chars("k=v=w"), &chars("=")), (chars("k"), Some(chars("v=w"))));
    assert_eq!(cut(&chars("kv"), &chars("=")), (chars("kv"), None));
    assert_eq!(cut(&chars("="), &chars("=")), (chars(""), Some(chars(""))));
}

#[test]
fn split_gives_every_piece() {
    assert_eq!(pieces("a&b&c", "&"), vec!["a", "b", "c"]);
    assert_eq!(pieces("", "&"), vec![""]);
    assert_eq!(pieces("&", "&"), vec!["", ""]);
    assert_eq!(pieces("a&&b&", "&"), vec!["a", "", "b", ""]);
    assert_eq!(pieces("one\r\ntwo\rthree\r\n", "\r\n"), vec!["one", "two\rthree", ""]);
    assert_eq!(pieces("aaa", "aa"), vec!["", "a"]);
    assert_eq!(pieces("abc", ""), vec!["abc"]);
}

#[test]
fn runs_of_a_class() {
    let v = chars("  ab \t");
    assert_eq!(skip_run(&v, CharClass::Space, 0), 2);
    assert_eq!(skip_run(&v, CharClass::Word, 2), 4);
    assert_eq!(skip_run(&v, CharClass::Space, 4), 6);
    assert_eq!(skip_run(&v, CharClass::Word, 0), 0);
    assert_eq!(skip_run_back(&v, CharClass::Space, 0, 6), 4);
    assert_eq!(skip_run_back(&v, CharClass::Space, 5, 6), 5);
    assert_eq!(skip_run_back(&v, CharClass::Word, 0, 4), 2);
}

#[test]
fn white_space_is_that_of_unicode() {
    for c in ['\t', '\n', '\u{b}', '\u{c}', '\r', ' ', '\u{85}', '\u{a0}', '\u{1680}', '\u{2000}',
        '\u{200a}', '\u{2028}', '\u{2029}', '\u{202f}', '\u{205f}', '\u{3000}'] {
        assert!(CharClass::Space.test(c));
        assert!(!CharClass::Word.test(c));
        assert!(c.is_whitespace());
    }
    for c in ['a', '\0', '\u{8}', '\u{e}', '\u{200b}', '\u{feff}', '\u{1f}'] {
        assert!(!CharClass::Space.test(c));
        assert!(CharClass::Word.test(c));
        assert!(!c.is_whitespace());
    }
    assert!(CharClass::Nul.test('\0'));
    assert!(!CharClass::Nul.test(' '));
}

#[test]
fn trim_takes_both_ends_only() {
    assert_eq!(trim_text(&chars("\0\0a\0b\0"), CharClass::Nul), chars("a\0b"));
    assert_eq!(trim_text(&chars("\0\0\0"), CharClass::Nul), chars(""));
    assert_eq!(trim_text(&chars(" \t a b \r\n"), CharClass::Space), chars("a b"));
    assert_eq!(trim_text(&chars(""), CharClass::Space), chars(""));
    assert_eq!(trim_text(&chars("ab"), CharClass::Space), chars("ab"));
}

#[test]
fn decimal_numbers_are_read() {
    assert_eq!(read_decimal(&chars("0"), u64::MAX), Some(0));
    assert_eq!(read_decimal(&chars("007"), u64::MAX), Some(7));
    assert_eq!(read_decimal(&chars("+42"), u64::MAX), Some(42));
    assert_eq!(read_decimal(&chars("18446744073709551615"), u64::MAX), Some(u64::MAX));
    assert_eq!(read_decimal(&chars("65535"), 65535), Some(65535));
}

#[test]
fn what_is_no_number_is_refused() {
    assert_eq!(read_decimal(&chars(""), u64::MAX), None);
    assert_eq!(read_decimal(&chars("+"), u64::MAX), None);
    assert_eq!(read_decimal(&chars("++1"), u64::MAX), None);
    assert_eq!(read_decimal(&chars("-1"), u64::MAX), None);
    assert_eq!(read_decimal(&chars("1 "), u64::MAX), None);
    assert_eq!(read_decimal(&chars("12a"), u64::MAX), None);
    assert_eq!(read_decimal(&chars("\u{663}"), u64::MAX), None);
    assert_eq!(read_decimal(&chars("18446744073709551616"), u64::MAX), None);
    assert_eq!(read_decimal(&chars("99999999999999999999999"), u64::MAX), None);
    assert_eq!(read_decimal(&chars("65536"), 65535), None);
    assert_eq!(read_decimal(&chars("1"), 0), None);
}

#[test]
fn reading_agrees_with_std() {
    for text in ["0", "1", "+5", "080", "65535", "65536", "", "+", "a", "1a", " 1", "70000"] {
        assert_eq!(read_decimal(&chars(text), 65535), text.parse::<u16>().ok().map(u64::from));
        assert_eq!(read_decimal(&chars(text), u64::MAX), text.parse::<u64>().ok());
    }
}

#[test]
fn decimal_numbers_are_written() {
    assert_eq!(write_decimal(0), chars("0"));
    assert_eq!(write_decimal(9), chars("9"));
    assert_eq!(write_decimal(10), chars("10"));
    assert_eq!(write_decimal(1024), chars("1024"));
    assert_eq!(write_decimal(u64::MAX), chars("18446744073709551615"));
}

#[test]
fn written_numbers_read_back() {
    for n in [0u64, 1, 9, 10, 99, 100, 12345, u64::MAX - 1, u64::MAX] {
        assert_eq!(read_decimal(&write_decimal(n), u64::MAX), Some(n));
    }
}
