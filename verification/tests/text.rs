use telepathy::text::{decimal_string, diagnostic_text, prefixed, reply_text, same_text};

#[test]
fn decimal_of_zero() {
    assert_eq!(decimal_string(0), "0");
}

#[test]
fn decimal_of_single_digits() {
    assert_eq!(decimal_string(7), "7");
    assert_eq!(decimal_string(9), "9");
}

#[test]
fn decimal_of_several_digits() {
    assert_eq!(decimal_string(10), "10");
    assert_eq!(decimal_string(42), "42");
    assert_eq!(decimal_string(1005), "1005");
}

#[test]
fn decimal_of_negative_numbers() {
    assert_eq!(decimal_string(-1), "-1");
    assert_eq!(decimal_string(-130), "-130");
}

#[test]
fn decimal_at_the_limits() {
    assert_eq!(decimal_string(i32::MAX), "2147483647");
    assert_eq!(decimal_string(i32::MIN), "-2147483648");
}

#[test]
fn decimal_agrees_with_std() {
    let samples: Vec<i32> = vec![0, 1, -1, 9, 10, 11, 99, 100, 101, 255, 256, -255, 65535, -65536, 1000000];
    for n in samples {
        assert_eq!(decimal_string(n), n.to_string());
    }
}

#[test]
fn diagnostic_is_trimmed() {
    let bytes: Vec<u8> = b"  \t boom \r\n".to_vec();
    assert_eq!(diagnostic_text(&bytes), "boom");
}

#[test]
fn diagnostic_keeps_inner_whitespace() {
    let bytes: Vec<u8> = b"\nno such file\tor directory \n".to_vec();
    assert_eq!(diagnostic_text(&bytes), "no such file\tor directory");
}

#[test]
fn diagnostic_of_nothing_is_empty() {
    let bytes: Vec<u8> = Vec::new();
    assert_eq!(diagnostic_text(&bytes), "");
    let blank: Vec<u8> = b" \n\t ".to_vec();
    assert_eq!(diagnostic_text(&blank), "");
}

#[test]
fn diagnostic_replaces_invalid_bytes() {
    let bytes: Vec<u8> = vec![b'a', 0xff, b'b'];
    assert_eq!(diagnostic_text(&bytes), "a\u{fffd}b");
}

#[test]
fn reply_is_trimmed_and_lowercased() {
    let bytes: Vec<u8> = b" TRUE\n".to_vec();
    assert_eq!(reply_text(&bytes), "true");
    let mixed: Vec<u8> = b"FaLsE".to_vec();
    assert_eq!(reply_text(&mixed), "false");
}

#[test]
fn reply_lowercases_beyond_ascii() {
    let bytes: Vec<u8> = "  \u{c4}RGER ".as_bytes().to_vec();
    assert_eq!(reply_text(&bytes), "\u{e4}rger");
}

#[test]
fn same_text_compares_characters() {
    assert!(same_text("true", "true"));
    assert!(!same_text("true", "True"));
    assert!(!same_text("true", "true "));
    assert!(same_text("", ""));
}

#[test]
fn prefixed_puts_the_prefix_first() {
    assert_eq!(prefixed("a: ", "b"), "a: b");
    assert_eq!(prefixed("a: ", ""), "a: ");
}
