use qwen3_tts::real32::Real32;
use qwen3_tts::text::{
    chars_of, copy_text, decimal_text, is_blank, is_whitespace, parse_i32, parse_unsigned, same_text,
    text_of, to_ascii_lowercase, trim,
};

#[test]
fn whitespace_agrees_with_the_standard_library() {
    for n in 0..=0x10_ffffu32 {
        if let Some(c) = char::from_u32(n) {
            assert_eq!(is_whitespace(c), c.is_whitespace(), "{n:#x}");
        }
    }
}

#[test]
fn trimming_agrees_with_the_standard_library() {
    for text in ["", " ", "a", " a ", "\t a b \n", "\u{3000}x\u{a0}", "  ", "x  "] {
        assert_eq!(trim(text), text.trim());
        assert_eq!(is_blank(text), text.trim().is_empty());
    }
}

#[test]
fn lower_case_is_ascii_only() {
    for text in ["", "ABC", "aBz[@", "ÄÖ Clone", "Z{`"] {
        assert_eq!(to_ascii_lowercase(text), text.to_ascii_lowercase());
    }
}

#[test]
fn numbers_are_written_and_read() {
    for n in [0u64, 1, 9, 10, 99, 100, 4096, u64::MAX] {
        assert_eq!(decimal_text(n), n.to_string());
        assert_eq!(parse_unsigned(&decimal_text(n), u64::MAX), Some(n));
    }
    for text in ["", "+", "-", "-1", "+7", "0", "007", "65535", "65536", "1a", " 1", "99999999999999999999"] {
        assert_eq!(parse_unsigned(text, 65_535).map(|n| n as u16), text.parse::<u16>().ok(), "{text:?}");
    }
    for text in ["", "+", "-", "-0", "-1", "+7", "2147483647", "2147483648", "-2147483648", "-2147483649", "1-"] {
        assert_eq!(parse_i32(text), text.parse::<i32>().ok(), "{text:?}");
    }
}

#[test]
fn texts_are_taken_apart_and_copied() {
    let chars = chars_of("añb");
    assert_eq!(chars, vec!['a', 'ñ', 'b']);
    assert_eq!(text_of(&chars, 1, 3), "ñb");
    assert!(same_text("x", "x") && !same_text("x", "X"));
    assert_eq!(copy_text(&Some("t".to_string())), Some("t".to_string()));
    assert_eq!(copy_text(&None), None);
}

#[test]
fn speeds_other_than_one_are_told() {
    let off = |x: f32| (x - 1.0).abs() > f32::EPSILON;
    let one = 1.0f32.to_bits();
    for bits in (one - 200)..(one + 200) {
        assert_eq!(Real32::from_bits(bits).differs_from_one(), off(f32::from_bits(bits)), "{bits:#x}");
    }
    for bits in (0..=u32::MAX).step_by(65_521) {
        assert_eq!(Real32::from_bits(bits).differs_from_one(), off(f32::from_bits(bits)), "{bits:#x}");
    }
    for x in [0.0, -1.0, f32::NAN, f32::INFINITY, f32::NEG_INFINITY, -0.0, -f32::NAN] {
        assert_eq!(Real32::from_bits(x.to_bits()).differs_from_one(), off(x));
    }
}
