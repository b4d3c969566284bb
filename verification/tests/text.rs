use rdap_core::text::{
    chars_of, clone_strings, is_whitespace, join, parse_decimal, parse_digits, split_chars,
    string_of, string_of_range, text_eq, to_ascii_lower, to_ascii_lowercase, trim, u64_to_decimal,
};

fn chars(s: &str) -> Vec<char> {
    s.chars().collect()
}

#[test]
fn chars_and_strings() {
    assert_eq!(chars_of("aé\u{1F600}"), vec!['a', 'é', '\u{1F600}']);
    assert_eq!(string_of(&chars("héllo")), "héllo");
    assert_eq!(string_of_range(&chars("héllo"), 1, 3), "él");
    assert_eq!(string_of_range(&chars("héllo"), 2, 2), "");
    assert!(text_eq("abc", "abc"));
    assert!(!text_eq("abc", "abd"));
    assert!(!text_eq("abc", "ab"));
    assert!(text_eq("", ""));
    let v = vec!["a".to_string(), "".to_string()];
    assert_eq!(clone_strings(&v), v);
}

#[test]
fn white_space_is_what_the_standard_library_takes_for_it() {
    for code in 0u32..0x11000 {
        if let Some(c) = char::from_u32(code) {
            assert_eq!(is_whitespace(c), c.is_whitespace(), "U+{code:04X}");
        }
    }
}

#[test]
fn trimming_is_that_of_the_standard_library() {
    for s in ["", " ", "  a b  ", "\t\n a\u{3000}", "a", "\u{a0}x\u{2003}\u{85}", " \u{200b} "] {
        assert_eq!(trim(s), s.trim(), "{s:?}");
    }
}

#[test]
fn lower_case() {
    assert_eq!(to_ascii_lower('A'), 'a');
    assert_eq!(to_ascii_lower('Z'), 'z');
    assert_eq!(to_ascii_lower('@'), '@');
    assert_eq!(to_ascii_lower('['), '[');
    assert_eq!(to_ascii_lower('É'), 'É');
    assert_eq!(to_ascii_lowercase("Foo.EXAMPLE-É"), "foo.example-É");
}

#[test]
fn decimal_texts() {
    assert_eq!(u64_to_decimal(0), "0");
    assert_eq!(u64_to_decimal(7), "7");
    assert_eq!(u64_to_decimal(10), "10");
    assert_eq!(u64_to_decimal(1234567890), "1234567890");
    assert_eq!(u64_to_decimal(u64::MAX), "18446744073709551615");
    assert_eq!(parse_decimal(&chars("0"), 10), Some(0));
    assert_eq!(parse_decimal(&chars("10"), 10), Some(10));
    assert_eq!(parse_decimal(&chars("11"), 10), None);
    assert_eq!(parse_decimal(&chars("010"), 10), None);
    assert_eq!(parse_decimal(&chars(""), 10), None);
    assert_eq!(parse_decimal(&chars("1a"), 10), None);
    assert_eq!(parse_decimal(&chars("٣"), 10), None);
    assert_eq!(parse_decimal(&chars("18446744073709551615"), u64::MAX), Some(u64::MAX));
    assert_eq!(parse_decimal(&chars("18446744073709551616"), u64::MAX), None);
    assert_eq!(parse_decimal(&chars("99999999999999999999999"), u64::MAX), None);
    assert_eq!(parse_digits(&chars("010"), 10), Some(10));
    assert_eq!(parse_digits(&chars("000"), 0), Some(0));
    assert_eq!(parse_digits(&chars("001"), 0), None);
    assert_eq!(parse_digits(&chars(""), 10), None);
    assert_eq!(parse_digits(&chars("-1"), 10), None);
    for n in [0u64, 1, 9, 10, 99, 100, 255, 256, 65535, 4294967295, u64::MAX - 1] {
        assert_eq!(parse_decimal(&chars(&u64_to_decimal(n)), u64::MAX), Some(n));
        assert_eq!(u64_to_decimal(n), n.to_string());
    }
}

#[test]
fn joining_and_splitting() {
    let parts = vec!["a".to_string(), "".to_string(), "bc".to_string()];
    assert_eq!(join(&parts, ", "), "a, , bc");
    assert_eq!(join(&vec![], ","), "");
    assert_eq!(join(&vec!["x".to_string()], ","), "x");
    let pieces = |s: &str| -> Vec<String> {
        split_chars(&chars(s), '.').iter().map(|p| p.iter().collect()).collect()
    };
    assert_eq!(pieces(""), vec![""]);
    assert_eq!(pieces("a"), vec!["a"]);
    assert_eq!(pieces("a.b"), vec!["a", "b"]);
    assert_eq!(pieces(".a..b."), vec!["", "a", "", "b", ""]);
    assert_eq!(pieces("."), vec!["", ""]);
    for s in ["", "a.b.c", "..", "a.", ".a"] {
        let std: Vec<String> = s.split('.').map(|p| p.to_string()).collect();
        assert_eq!(pieces(s), std, "{s:?}");
    }
}
