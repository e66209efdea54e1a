use enso_parser::syntax::token::Codepoint;

#[test]
fn scalar_value_is_a_valid_codepoint() {
    let a = Codepoint::from_u32(0x41);
    assert_eq!(a.to_char(), Some('A'));
    assert!(!a.is_none());
    assert_eq!(a, Codepoint::from_char('A'));
}

#[test]
fn surrogate_is_kept_and_is_no_char() {
    let low = Codepoint::from_u32(0xD800);
    assert!(!low.is_none());
    assert_eq!(low.to_char(), None);
    let high = Codepoint::from_u32(0xDFFF);
    assert!(!high.is_none());
    assert_eq!(high.to_char(), None);
    assert_ne!(low, high);
    assert_ne!(low, Codepoint::none());
}

#[test]
fn value_out_of_range_is_none() {
    let none = Codepoint::from_u32(0x110000);
    assert!(none.is_none());
    assert_eq!(none, Codepoint::none());
    assert_eq!(none.to_char(), None);
    assert!(Codepoint::from_u32(0xFFFF_FFFF).is_none());
    assert!(Codepoint::from_u32(0x7FFF_FFFF).is_none());
}

#[test]
fn none_is_none() {
    assert!(Codepoint::none().is_none());
    assert_eq!(Codepoint::none().to_char(), None);
    assert_eq!(Codepoint::default(), Codepoint::none());
}

#[test]
fn bounds_of_the_three_states() {
    assert_eq!(Codepoint::from_u32(0).to_char(), Some('\0'));
    assert_eq!(Codepoint::from_u32(0xD7FF).to_char(), Some('\u{D7FF}'));
    assert_eq!(Codepoint::from_u32(0xE000).to_char(), Some('\u{E000}'));
    assert_eq!(Codepoint::from_u32(0x10FFFF).to_char(), Some('\u{10FFFF}'));
    assert!(!Codepoint::from_u32(0x10FFFF).is_none());
    assert!(Codepoint::from_u32(0x110000).is_none());
}

#[test]
fn char_goes_in_and_comes_out() {
    for c in ['a', 'ż', '€', '🦀', '\u{10FFFF}', '\0'] {
        let codepoint = Codepoint::from_char(c);
        assert!(!codepoint.is_none());
        assert_eq!(codepoint.to_char(), Some(c));
        assert_eq!(Codepoint::from_u32(c as u32), codepoint);
    }
}

#[test]
fn codepoint_is_one_plain_number() {
    assert_eq!(Codepoint::from_char('A').to_u32(), 0x41);
    assert_eq!(Codepoint::from_u32(0xDC00).to_u32(), 0xDC00);
    assert_eq!(Codepoint::none().to_u32(), 0xFFFF_FFFF);
    assert_eq!(Codepoint::from_u32(0x110000).to_u32(), 0xFFFF_FFFF);
    for value in [0, 0x41, 0xD7FF, 0xD800, 0xDFFF, 0xE000, 0x10FFFF, 0x110000, 0xFFFF_FFFF] {
        let codepoint = Codepoint::from_u32(value);
        assert_eq!(Codepoint::from_u32(codepoint.to_u32()), codepoint);
    }
}
