use vmdb::text::{
    after_blanks, after_word, blank, char_at, decimal_string, find_char, has_prefix, has_suffix,
    hex16, hex_chars, parse_number, push_decimal, to_chars,
};

fn chars(s: &str) -> Vec<char> {
    s.chars().collect()
}

fn number(s: &str) -> Option<usize> {
    let v = chars(s);
    parse_number(&v, 0, v.len())
}

#[test]
fn to_chars_keeps_every_character() {
    assert_eq!(to_chars(""), Vec::<char>::new());
    assert_eq!(to_chars("a\u{65e5}b"), vec!['a', '\u{65e5}', 'b']);
}

#[test]
fn char_at_reads_one_character() {
    let v = chars("xyz");
    assert_eq!(char_at(&v, 0), 'x');
    assert_eq!(char_at(&v, 2), 'z');
}

#[test]
fn decimal_of_small_and_large_numbers() {
    assert_eq!(decimal_string(0), "0");
    assert_eq!(decimal_string(7), "7");
    assert_eq!(decimal_string(10), "10");
    assert_eq!(decimal_string(305), "305");
    assert_eq!(decimal_string(1234567890), "1234567890");
    assert_eq!(decimal_string(u64::MAX), "18446744073709551615");
}

#[test]
fn push_decimal_appends() {
    let mut s = "port ".to_string();
    push_decimal(&mut s, 1234);
    assert_eq!(s, "port 1234");
    push_decimal(&mut s, 0);
    assert_eq!(s, "port 12340");
}

#[test]
fn hex16_pads_to_sixteen_digits() {
    assert_eq!(hex16(0), "0000000000000000");
    assert_eq!(hex16(0x4010a0), "00000000004010a0");
    assert_eq!(hex16(0xdeadbeef), "00000000deadbeef");
    assert_eq!(hex16(0x0123456789abcdef), "0123456789abcdef");
    assert_eq!(hex16(u64::MAX), "ffffffffffffffff");
}

#[test]
fn hex_chars_has_no_padding() {
    assert_eq!(hex_chars(0), chars("0"));
    assert_eq!(hex_chars(9), chars("9"));
    assert_eq!(hex_chars(10), chars("a"));
    assert_eq!(hex_chars(15), chars("f"));
    assert_eq!(hex_chars(16), chars("10"));
    assert_eq!(hex_chars(0x401000), chars("401000"));
    assert_eq!(hex_chars(u64::MAX), chars("ffffffffffffffff"));
}

#[test]
fn hex_agrees_with_the_standard_formatter() {
    let values = [0u64, 1, 15, 16, 255, 256, 4095, 0x401000, 0x7fff_ffff_ffff_ffff, u64::MAX];
    for v in values {
        assert_eq!(hex16(v), format!("{:016x}", v));
        assert_eq!(hex_chars(v), chars(&format!("{:x}", v)));
        assert_eq!(decimal_string(v), format!("{}", v));
    }
}

#[test]
fn find_char_gives_the_first_position() {
    let v = chars("ab:cd:ef");
    assert_eq!(find_char(&v, ':', 0), 2);
    assert_eq!(find_char(&v, ':', 2), 2);
    assert_eq!(find_char(&v, ':', 3), 5);
    assert_eq!(find_char(&v, ':', 6), 8);
    assert_eq!(find_char(&v, '!', 0), 8);
    assert_eq!(find_char(&v, ':', 100), 8);
    assert_eq!(find_char(&chars(""), ':', 0), 0);
}

#[test]
fn blank_characters() {
    for c in [' ', '\t', '\n', '\x0b', '\x0c', '\r'] {
        assert!(blank(c));
    }
    for c in ['a', '0', ',', '\x08', '\x0e', '\u{a0}', '\u{3000}'] {
        assert!(!blank(c));
    }
}

#[test]
fn stepping_over_blanks_and_words() {
    let v = chars("  ab \t cd");
    assert_eq!(after_blanks(&v, 0, v.len()), 2);
    assert_eq!(after_word(&v, 2, v.len()), 4);
    assert_eq!(after_blanks(&v, 4, v.len()), 7);
    assert_eq!(after_word(&v, 7, v.len()), 9);
    assert_eq!(after_blanks(&v, 9, v.len()), 9);
    // the end may come before the end of the text
    assert_eq!(after_word(&v, 7, 8), 8);
    assert_eq!(after_blanks(&v, 4, 6), 6);
}

#[test]
fn numbers_are_runs_of_digits() {
    assert_eq!(number("0"), Some(0));
    assert_eq!(number("3"), Some(3));
    assert_eq!(number("42"), Some(42));
    assert_eq!(number("007"), Some(7));
    assert_eq!(number("+3"), Some(3));
    assert_eq!(number(&usize::MAX.to_string()), Some(usize::MAX));
}

#[test]
fn what_is_no_number() {
    assert_eq!(number(""), None);
    assert_eq!(number("+"), None);
    assert_eq!(number("-3"), None);
    assert_eq!(number("++3"), None);
    assert_eq!(number("3+"), None);
    assert_eq!(number("3a"), None);
    assert_eq!(number("a3"), None);
    assert_eq!(number("3 "), None);
    assert_eq!(number("0x10"), None);
    assert_eq!(number("\u{663}"), None);
}

#[test]
fn numbers_beyond_the_machine_word_are_no_numbers() {
    let max = usize::MAX.to_string();
    let mut beyond = max.clone();
    beyond.push('0');
    assert_eq!(number(&beyond), None);
    // one more than the largest
    let digits: Vec<char> = max.chars().collect();
    let mut bumped = digits.clone();
    let last = bumped.len() - 1;
    // the largest machine word ends in 5, in both widths
    assert_eq!(bumped[last], '5');
    bumped[last] = '6';
    assert_eq!(parse_number(&bumped, 0, bumped.len()), None);
    assert_eq!(number("99999999999999999999999999999999"), None);
}

#[test]
fn numbers_agree_with_the_standard_parser() {
    let words = ["0", "1", "+1", "10", "0010", "65535", "4294967295", "", "+", "x", "1x", "-1"];
    for w in words {
        assert_eq!(number(w), w.parse::<usize>().ok());
    }
}

#[test]
fn parse_number_reads_the_given_range_only() {
    let v = chars("ab 123 cd");
    assert_eq!(parse_number(&v, 3, 6), Some(123));
    assert_eq!(parse_number(&v, 3, 5), Some(12));
    assert_eq!(parse_number(&v, 4, 6), Some(23));
    assert_eq!(parse_number(&v, 2, 6), None);
    assert_eq!(parse_number(&v, 3, 3), None);
}

#[test]
fn prefixes() {
    assert!(has_prefix(&chars("Breakpoint 1"), &chars("Breakpoint")));
    assert!(has_prefix(&chars("Breakpoint"), &chars("Breakpoint")));
    assert!(has_prefix(&chars("abc"), &chars("")));
    assert!(!has_prefix(&chars("Breakpoin"), &chars("Breakpoint")));
    assert!(!has_prefix(&chars("breakpoint 1"), &chars("Breakpoint")));
    assert!(!has_prefix(&chars(" Breakpoint 1"), &chars("Breakpoint")));
}

#[test]
fn suffixes() {
    let v = chars("  401000:\tab cd");
    assert!(has_suffix(&v, 8, &chars("401000")));
    assert!(has_suffix(&v, 8, &chars("1000")));
    assert!(has_suffix(&v, 8, &chars("")));
    assert!(!has_suffix(&v, 8, &chars("401001")));
    assert!(!has_suffix(&v, 8, &chars("x  401000")));
    assert!(!has_suffix(&v, 7, &chars("401000")));
    assert!(has_suffix(&v, v.len(), &chars("cd")));
    assert!(has_suffix(&v, 0, &chars("")));
    assert!(!has_suffix(&v, 0, &chars("a")));
}
