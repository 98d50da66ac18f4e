use flight_booking::is_invalid_string;
use flight_booking::text::{char_is_white_space, decimal_string};

#[test]
fn blank_strings_are_invalid() {
    assert!(is_invalid_string(&String::new()));
    assert!(is_invalid_string(&" ".to_string()));
    assert!(is_invalid_string(&" \t\r\n ".to_string()));
    assert!(is_invalid_string(&"\u{a0}\u{2003}\u{3000}".to_string()));
}

#[test]
fn strings_with_text_are_valid() {
    assert!(!is_invalid_string(&"a".to_string()));
    assert!(!is_invalid_string(&"  KLM  ".to_string()));
    assert!(!is_invalid_string(&"\t.\n".to_string()));
    assert!(!is_invalid_string(&"\u{200b}".to_string()));
    assert!(!is_invalid_string(&"   \u{1f600}".to_string()));
}

#[test]
fn white_space_is_what_trimming_removes() {
    let mut code: u32 = 0;
    while code <= 0x10ffff {
        if let Some(c) = char::from_u32(code) {
            assert_eq!(char_is_white_space(c), c.is_whitespace(), "code point {:x}", code);
            let text = c.to_string();
            assert_eq!(is_invalid_string(&text), text.trim().is_empty(), "code point {:x}", code);
        }
        code += 1;
    }
}

#[test]
fn invalid_agrees_with_trim_on_mixed_strings() {
    let samples = [
        "", " ", "x", " x", "x ", " x ", "\n\n", "\n.\n", "\u{85}", "\u{85}a", "\u{1680}\u{2028}",
        "\u{180e}", "\u{feff}", "a\u{3000}b", "\u{2000}\u{200a}", "\u{200b}\u{2000}",
    ];
    for sample in samples {
        let text = sample.to_string();
        assert_eq!(is_invalid_string(&text), text.trim().is_empty(), "sample {:?}", sample);
    }
}

#[test]
fn decimal_of_small_numbers() {
    assert_eq!(decimal_string(0), "0");
    assert_eq!(decimal_string(7), "7");
    assert_eq!(decimal_string(9), "9");
    assert_eq!(decimal_string(10), "10");
    assert_eq!(decimal_string(42), "42");
    assert_eq!(decimal_string(1_000), "1000");
    assert_eq!(decimal_string(7_500_000_000_000), "7500000000000");
}

#[test]
fn decimal_of_the_largest_number() {
    assert_eq!(decimal_string(u64::MAX), "18446744073709551615");
}

#[test]
fn decimal_agrees_with_the_standard_format() {
    let mut n: u64 = 1;
    for _ in 0..64 {
        assert_eq!(decimal_string(n), format!("{}", n));
        assert_eq!(decimal_string(n - 1), format!("{}", n - 1));
        n = n.wrapping_mul(3).wrapping_add(1);
    }
    for n in [99u64, 100, 101, 123_456_789, 9_999_999_999, 10_000_000_000] {
        assert_eq!(decimal_string(n), format!("{}", n));
    }
}
