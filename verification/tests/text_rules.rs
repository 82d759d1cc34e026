use secret_tunnel::address::{ipv4_text, ipv6_text};
use secret_tunnel::text::{
    blank, concat2, concat3, contains_text, endpoint_text, find_text, parse_unsigned, push_decimal,
    push_digits, same_text, split_lines, split_text, trim, white,
};

fn decimal(n: u64) -> String {
    let mut out = String::new();
    push_decimal(&mut out, n);
    out
}

fn ipv6(groups: [u16; 8]) -> String {
    let mut octets = Vec::new();
    for group in groups {
        octets.extend_from_slice(&group.to_be_bytes());
    }
    ipv6_text(&octets)
}

#[test]
fn white_space_is_that_of_the_standard_library() {
    for n in 0..=0x10ffff_u32 {
        if let Some(c) = char::from_u32(n) {
            assert_eq!(white(c), c.is_whitespace(), "{n:x}");
        }
    }
}

#[test]
fn trimming_takes_white_space_from_both_ends_only() {
    assert_eq!(trim("  a b\t\r\n"), "a b");
    assert_eq!(trim("\u{3000}x\u{a0}"), "x");
    assert_eq!(trim(" \n "), "");
    assert_eq!(trim(""), "");
    for text in ["a", " a", "a ", " a a ", "\u{2028}é\u{85}"] {
        assert_eq!(trim(text), text.trim());
    }
}

#[test]
fn blank_text_holds_white_space_only() {
    assert!(blank(""));
    assert!(blank(" \t\u{2003}"));
    assert!(!blank(" . "));
}

#[test]
fn texts_are_compared_and_searched() {
    assert!(same_text("abc", "abc"));
    assert!(!same_text("abc", "abd"));
    assert!(!same_text("abc", "ab"));
    assert!(contains_text("key rejected", "reject"));
    assert!(contains_text("abc", ""));
    assert!(contains_text("aab", "ab"));
    assert!(!contains_text("ab", "abc"));
    assert!(!contains_text("a b", "ab"));
}

#[test]
fn texts_are_joined() {
    assert_eq!(concat2("a", "b"), "ab");
    assert_eq!(concat3("a", "", "c"), "ac");
    assert_eq!(endpoint_text("127.0.0.1", 1080), "127.0.0.1:1080");
}

#[test]
fn numbers_are_written_without_leading_zeros() {
    assert_eq!(decimal(0), "0");
    assert_eq!(decimal(1080), "1080");
    assert_eq!(decimal(u64::MAX), "18446744073709551615");
    let mut out = "0x".to_string();
    push_digits(&mut out, 0xbeef, 16);
    assert_eq!(out, "0xbeef");
}

#[test]
fn numbers_are_read_as_the_standard_library_reads_them() {
    for text in [
        "0", "7", "+7", "007", "18446744073709551615", "18446744073709551616", "", "+", "-1", "1 ",
        "1_0", "++1", "99999999999999999999999", "a", "+0",
    ] {
        assert_eq!(parse_unsigned(text), text.parse::<u64>().ok(), "{text}");
    }
}

#[test]
fn written_numbers_read_back() {
    for n in [0, 9, 10, 99, 65535, 1 << 40, u64::MAX - 1, u64::MAX] {
        assert_eq!(parse_unsigned(&decimal(n)), Some(n));
    }
}

#[test]
fn splitting_keeps_empty_pieces() {
    assert_eq!(split_text("a,,b,", ','), vec!["a", "", "b", ""]);
    assert_eq!(split_text("", ','), vec![""]);
    assert_eq!(split_text("a;b", ','), vec!["a;b"]);
}

#[test]
fn split_pieces_join_back() {
    for text in ["a,b", ",", "", "no separator", ",,x,"] {
        assert_eq!(split_text(text, ',').join(","), text);
    }
}

#[test]
fn lines_end_with_a_line_feed() {
    for text in ["a\nb\r\nc", "a\n", "\n\n", "", "a\r", "\r\n", "a\r\r\nb\r"] {
        let expected: Vec<&str> = text.lines().collect();
        assert_eq!(split_lines(text), expected);
    }
    assert_eq!(split_lines("a\r\nb\r"), vec!["a", "b\r"]);
}

#[test]
fn the_first_match_is_found() {
    let list = vec!["a".to_string(), "b".to_string(), "b".to_string()];
    assert_eq!(find_text(&list, "b"), Some(1));
    assert_eq!(find_text(&list, "c"), None);
}

#[test]
fn ipv4_addresses_are_dotted() {
    assert_eq!(ipv4_text(&[192, 0, 2, 255], 0), "192.0.2.255");
    assert_eq!(ipv4_text(&[9, 9, 0, 0, 0, 0], 2), "0.0.0.0");
}

#[test]
fn ipv6_addresses_are_shortened() {
    assert_eq!(ipv6([0, 0, 0, 0, 0, 0, 0, 0]), "::");
    assert_eq!(ipv6([0, 0, 0, 0, 0, 0, 0, 1]), "::1");
    assert_eq!(ipv6([0x2001, 0xdb8, 0, 0, 0, 0, 0, 1]), "2001:db8::1");
    assert_eq!(ipv6([1, 2, 3, 4, 5, 6, 7, 8]), "1:2:3:4:5:6:7:8");
    assert_eq!(ipv6([1, 0, 0, 0, 0, 0, 0, 0]), "1::");
    assert_eq!(ipv6([0xfe80, 0, 0, 0, 0, 0, 0, 0xabcd]), "fe80::abcd");
}

#[test]
fn the_longest_row_of_zeros_is_left_out() {
    assert_eq!(ipv6([1, 0, 0, 2, 0, 0, 0, 3]), "1:0:0:2::3");
    assert_eq!(ipv6([0x2001, 0xdb8, 0, 0, 1, 0, 0, 1]), "2001:db8::1:0:0:1");
    assert_eq!(ipv6([1, 0, 2, 3, 4, 5, 6, 7]), "1:0:2:3:4:5:6:7");
}

#[test]
fn mapped_ipv4_addresses_keep_their_form() {
    assert_eq!(ipv6([0, 0, 0, 0, 0, 0xffff, 0xc000, 0x280]), "::ffff:192.0.2.128");
    assert_eq!(ipv6([0, 0, 0, 0, 0, 0, 0xc000, 0x280]), "::c000:280");
    assert_eq!(ipv6([0, 0, 0, 0, 1, 0xffff, 0xc000, 0x280]), "::1:ffff:c000:280");
}
