use greend::text::chars_of;
use greend::text::contains_exec;
use greend::text::format_u64;
use greend::text::join_path_exec;
use greend::text::parse_u64_range;
use greend::text::split_ranges;
use greend::text::starts_with_exec;
use greend::text::str_equal;
use greend::text::trim_range;

fn parse(s: &str) -> Option<u64> {
    let cs = chars_of(s);
    parse_u64_range(&cs, 0, cs.len())
}

#[test]
fn format_u64_writes_decimal() {
    assert_eq!(format_u64(0), "0");
    assert_eq!(format_u64(7), "7");
    assert_eq!(format_u64(10), "10");
    assert_eq!(format_u64(5000), "5000");
    assert_eq!(format_u64(u64::MAX), "18446744073709551615");
}

#[test]
fn parse_u64_follows_from_str() {
    assert_eq!(parse("0"), Some(0));
    assert_eq!(parse("42"), Some(42));
    assert_eq!(parse("+42"), Some(42));
    assert_eq!(parse("007"), Some(7));
    assert_eq!(parse("18446744073709551615"), Some(u64::MAX));
    assert_eq!(parse("18446744073709551616"), None);
    assert_eq!(parse(""), None);
    assert_eq!(parse("+"), None);
    assert_eq!(parse("-1"), None);
    assert_eq!(parse("12a"), None);
    assert_eq!(parse(" 1"), None);
    for s in ["0", "42", "+42", "007", "18446744073709551616", "", "+", "-1", "12a", " 1"] {
        assert_eq!(parse(s), s.parse::<u64>().ok(), "{s}");
    }
}

#[test]
fn parse_of_format_round_trips() {
    for n in [0u64, 1, 9, 10, 99, 100, 12345, 4294967296, u64::MAX - 1, u64::MAX] {
        assert_eq!(parse(&format_u64(n)), Some(n));
    }
}

#[test]
fn trim_follows_str_trim() {
    for s in ["  a b  ", "\t\n x\r\n", "\u{a0}\u{3000}y\u{2028}", "", "   ", "z"] {
        let cs = chars_of(s);
        let (a, b) = trim_range(&cs, 0, cs.len());
        let got: String = cs[a..b].iter().collect();
        assert_eq!(got, s.trim());
    }
}

#[test]
fn split_follows_str_split() {
    for s in ["a=b=c", "=", "", "abc", "a==b", "x="] {
        let cs = chars_of(s);
        let ranges = split_ranges(&cs, '=');
        let got: Vec<String> = ranges.iter().map(|(a, b)| cs[*a..*b].iter().collect()).collect();
        let want: Vec<String> = s.split('=').map(|p| p.to_string()).collect();
        assert_eq!(got, want);
    }
}

#[test]
fn contains_and_starts_with() {
    let s = chars_of("com.apple.Safari");
    assert!(starts_with_exec(&s, &chars_of("com.apple.")));
    assert!(!starts_with_exec(&s, &chars_of("apple")));
    assert!(contains_exec(&s, &chars_of("Safari")));
    assert!(contains_exec(&s, &chars_of("")));
    assert!(!contains_exec(&s, &chars_of("Chrome")));
    assert!(!contains_exec(&chars_of("Saf"), &chars_of("Safari")));
}

#[test]
fn str_equal_compares_characters() {
    assert!(str_equal("macos", "macos"));
    assert!(!str_equal("macos", "linux"));
    assert!(!str_equal("mac", "macos"));
}

#[test]
fn join_path_adds_one_separator() {
    assert_eq!(join_path_exec("/home/u", "x"), "/home/u/x");
    assert_eq!(join_path_exec("/home/u/", "x"), "/home/u/x");
    assert_eq!(join_path_exec("", "x"), "x");
}
