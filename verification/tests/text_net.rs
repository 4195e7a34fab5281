use netdiag::net::{ip_to_text, push_ip_list, IpAddress};
use netdiag::text::{
    chars_of, contains, ends_with, insert_sorted_unique, list_contains, matches_at, parse_hex_u8, parse_u32,
    push_decimal, push_joined, split_on, starts_with, str_eq, str_to_string, string_lt, trim_start_matches,
};

fn v6(groups: [u16; 8]) -> IpAddress {
    let mut o = [0u8; 16];
    for (i, g) in groups.iter().enumerate() {
        o[2 * i] = (g >> 8) as u8;
        o[2 * i + 1] = (g & 0xff) as u8;
    }
    IpAddress::V6(o)
}

#[test]
fn ip_texts() {
    assert_eq!(ip_to_text(&IpAddress::V4([0, 0, 0, 0])), "0.0.0.0");
    assert_eq!(ip_to_text(&IpAddress::V4([255, 10, 1, 200])), "255.10.1.200");
    assert_eq!(ip_to_text(&v6([0; 8])), "::");
    assert_eq!(ip_to_text(&v6([0, 0, 0, 0, 0, 0, 0, 1])), "::1");
    assert_eq!(ip_to_text(&v6([0x2001, 0xdb8, 0, 0, 0, 0, 0, 1])), "2001:db8::1");
    assert_eq!(ip_to_text(&v6([0x2001, 0xdb8, 0, 1, 1, 1, 1, 1])), "2001:db8:0:1:1:1:1:1");
    assert_eq!(ip_to_text(&v6([1, 0, 0, 2, 0, 0, 0, 3])), "1:0:0:2::3");
    assert_eq!(ip_to_text(&v6([1, 0, 0, 2, 0, 0, 3, 4])), "1::2:0:0:3:4");
    assert_eq!(ip_to_text(&v6([0xfe80, 0, 0, 0, 0, 0, 0, 0])), "fe80::");
    assert_eq!(ip_to_text(&v6([0, 0, 0, 0, 0, 0xffff, 0xc000, 0x0280])), "::ffff:192.0.2.128");
    assert_eq!(ip_to_text(&v6([0x2606, 0x4700, 0x4700, 0, 0, 0, 0, 0x1111])), "2606:4700:4700::1111");
    let mut s = String::from("servers ");
    push_ip_list(&mut s, &vec![IpAddress::V4([1, 1, 1, 1]), v6([0, 0, 0, 0, 0, 0, 0, 1])]);
    assert_eq!(s, "servers [1.1.1.1, ::1]");
    let mut e = String::new();
    push_ip_list(&mut e, &vec![]);
    assert_eq!(e, "[]");
}

#[test]
fn number_parsing() {
    assert_eq!(parse_u32("0"), Some(0));
    assert_eq!(parse_u32("+17"), Some(17));
    assert_eq!(parse_u32("4294967295"), Some(u32::MAX));
    assert_eq!(parse_u32("4294967296"), None);
    assert_eq!(parse_u32(""), None);
    assert_eq!(parse_u32("+"), None);
    assert_eq!(parse_u32("-1"), None);
    assert_eq!(parse_u32("12a"), None);
    assert_eq!(parse_u32("007"), Some(7));
    assert_eq!(parse_hex_u8("ff"), Some(255));
    assert_eq!(parse_hex_u8("0A"), Some(10));
    assert_eq!(parse_hex_u8("+1"), Some(1));
    assert_eq!(parse_hex_u8("100"), None);
    assert_eq!(parse_hex_u8("g"), None);
    assert_eq!(parse_hex_u8(""), None);
    let mut s = String::new();
    push_decimal(&mut s, 0);
    push_decimal(&mut s, 18446744073709551615);
    assert_eq!(s, "018446744073709551615");
}

#[test]
fn string_helpers() {
    assert!(starts_with("AS13335", "AS"));
    assert!(!starts_with("A", "AS"));
    assert!(ends_with("example.com", ".com"));
    assert!(contains("abc", ""));
    assert!(contains("hello world", "o w"));
    assert!(!contains("hello", "hello!"));
    assert!(str_eq("x", "x"));
    assert!(!str_eq("x", "y"));
    assert_eq!(str_to_string("é"), "é");
    assert_eq!(trim_start_matches("ASASAS1", "AS"), "1");
    assert_eq!(trim_start_matches("xAS", "AS"), "xAS");
    assert_eq!(split_on("a..b", '.'), vec!["a".to_string(), "".to_string(), "b".to_string()]);
    assert_eq!(split_on("", '.'), vec!["".to_string()]);
    assert!(list_contains(&vec!["abuse".to_string(), "technical".to_string()], "technical"));
    assert!(!list_contains(&vec![], "x"));
    let cs = chars_of("abcab");
    assert_eq!(cs.len(), 5);
    assert!(matches_at(&cs, &vec!['a', 'b'], 3));
    assert!(!matches_at(&cs, &vec!['a', 'b'], 4));
    let mut j = String::from(">");
    push_joined(&mut j, &vec!["a".to_string(), "b".to_string(), "c".to_string()], ", ");
    assert_eq!(j, ">a, b, c");
}

#[test]
fn sorted_sets_of_strings() {
    assert!(string_lt(&"BEAST".to_string(), &"Heartbleed".to_string()));
    assert!(string_lt(&"ab".to_string(), &"abc".to_string()));
    assert!(!string_lt(&"b".to_string(), &"b".to_string()));
    let mut v: Vec<String> = Vec::new();
    for x in ["POODLE", "BEAST", "POODLE", "FREAK", "BEAST"] {
        insert_sorted_unique(&mut v, x.to_string());
    }
    assert_eq!(v, vec!["BEAST".to_string(), "FREAK".to_string(), "POODLE".to_string()]);
}
