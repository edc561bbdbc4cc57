use npu_monitor::text::{chars_of, push_decimal, push_two_hex_digits, same_text, text_contains};

#[test]
fn chars_are_listed_in_order() {
    assert_eq!(chars_of("a\u{e9}z"), vec!['a', '\u{e9}', 'z']);
    assert_eq!(chars_of(""), Vec::<char>::new());
}

#[test]
fn same_text_compares_characters() {
    assert!(same_text("", ""));
    assert!(same_text("abc", "abc"));
    assert!(!same_text("abc", "abd"));
    assert!(!same_text("abc", "ab"));
    assert!(!same_text("ab", "abc"));
}

#[test]
fn contains_finds_the_pattern_anywhere() {
    assert!(text_contains("xxNPU", "NPU"));
    assert!(text_contains("NPUxx", "NPU"));
    assert!(text_contains("xNPUx", "NPU"));
    assert!(text_contains("NNPU", "NPU"));
    assert!(text_contains("anything", ""));
    assert!(text_contains("", ""));
    assert!(!text_contains("", "NPU"));
    assert!(!text_contains("NP", "NPU"));
    assert!(!text_contains("N-P-U", "NPU"));
}

#[test]
fn contains_agrees_with_the_standard_library() {
    let texts = ["", "a", "ab", "aab", "abab", "ba", "\u{e9}a\u{e9}", "aaa"];
    for text in texts {
        for pattern in texts {
            assert_eq!(text_contains(text, pattern), text.contains(pattern), "{:?} {:?}", text, pattern);
        }
    }
}

#[test]
fn digits_are_lower_case_hexadecimal() {
    let mut out = String::new();
    for byte in [0x01, 0x23, 0x45, 0x67, 0x89, 0xab, 0xcd, 0xef] {
        push_two_hex_digits(&mut out, byte);
    }
    assert_eq!(out, "0123456789abcdef");
}

#[test]
fn hex_digits_are_appended() {
    let mut out = String::from(">");
    push_two_hex_digits(&mut out, 0x0b);
    push_two_hex_digits(&mut out, 0xf0);
    assert_eq!(out, ">0bf0");
}

#[test]
fn decimal_digits_are_appended() {
    for n in 0..=255u8 {
        let mut out = String::from(">");
        push_decimal(&mut out, n);
        assert_eq!(out, format!(">{}", n));
    }
}
