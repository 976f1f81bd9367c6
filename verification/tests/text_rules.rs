use memory_ledger::text::char_is_whitespace;

#[test]
fn white_space_matches_std_over_the_low_planes() {
    for code in 0u32..=0x3100 {
        if let Some(c) = char::from_u32(code) {
            assert_eq!(char_is_whitespace(c), c.is_whitespace(), "U+{code:04X}");
        }
    }
    assert!(!char_is_whitespace('\u{200B}'));
    assert!(char_is_whitespace('\u{3000}'));
}
