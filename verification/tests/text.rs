use raxupf::ipaddr::{parse_ipv4, parse_u32};
use raxupf::text::{digit_run, find_char, is_whitespace, parse_decimal, starts_with_tag, trim_bounds};

fn chars(s: &str) -> Vec<char> {
    s.chars().collect()
}

#[test]
fn whitespace_and_trimming() {
    assert!(is_whitespace(' '));
    assert!(is_whitespace('\t'));
    assert!(is_whitespace('\u{3000}'));
    assert!(!is_whitespace('x'));
    let s = chars("  ab c \n");
    let (lo, hi) = trim_bounds(&s);
    assert_eq!(s[lo..hi].iter().collect::<String>(), "ab c");
    let (lo, hi) = trim_bounds(&chars("   "));
    assert_eq!(lo, hi);
}

#[test]
fn tags_digits_and_searches() {
    assert!(starts_with_tag(&chars("permit out"), &chars("permit")));
    assert!(!starts_with_tag(&chars("per"), &chars("permit")));
    assert_eq!(find_char(&chars("a.b.c"), '.'), Some(1));
    assert_eq!(find_char(&chars("abc"), '.'), None);
    assert_eq!(digit_run(&chars("123abc")), 3);
    assert_eq!(digit_run(&chars("abc")), 0);
    assert_eq!(parse_decimal(&chars("65535"), 65535), Some(65535));
    assert_eq!(parse_decimal(&chars("65536"), 65535), None);
    assert_eq!(parse_decimal(&chars(""), 10), None);
    assert_eq!(parse_decimal(&chars("1a"), 10), None);
}

#[test]
fn ipv4_addresses_as_the_standard_library_reads_them() {
    assert_eq!(parse_ipv4(&chars("192.168.1.10")), Some(0xc0a8_010a));
    assert_eq!(parse_ipv4(&chars("0.0.0.0")), Some(0));
    assert_eq!(parse_ipv4(&chars("255.255.255.255")), Some(0xffff_ffff));
    assert_eq!(parse_ipv4(&chars("256.0.0.1")), None);
    assert_eq!(parse_ipv4(&chars("1.2.3")), None);
    assert_eq!(parse_ipv4(&chars("1.2.3.4.5")), None);
    assert_eq!(parse_ipv4(&chars("01.2.3.4")), None);
    assert_eq!(parse_ipv4(&chars("1..3.4")), None);
}

#[test]
fn unsigned_numbers_as_the_standard_library_reads_them() {
    assert_eq!(parse_u32(&chars("24")), Some(24));
    assert_eq!(parse_u32(&chars("+7")), Some(7));
    assert_eq!(parse_u32(&chars("4294967295")), Some(u32::MAX));
    assert_eq!(parse_u32(&chars("4294967296")), None);
    assert_eq!(parse_u32(&chars("+")), None);
    assert_eq!(parse_u32(&chars("-1")), None);
    assert_eq!(parse_u32(&chars("")), None);
}
