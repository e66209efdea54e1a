use enso_parser::source::code::Code;
use enso_parser::source::code::Length;
use enso_parser::source::code::Location;
use enso_parser::source::span::Offset;
use enso_parser::source::span::VisibleOffset;

#[test]
fn length_counts_bytes() {
    assert_eq!(Length::of(""), Length { utf8: 0 });
    assert_eq!(Length::of("abc"), Length { utf8: 3 });
    assert_eq!(Length::of("żółw"), Length { utf8: 7 });
    assert_eq!(Length::of("🦀"), Length { utf8: 4 });
    assert!(Length::of("").is_zero());
    assert!(!Length::of("a").is_zero());
    assert_eq!(Length::default(), Length { utf8: 0 });
}

#[test]
fn location_advances_by_a_length() {
    let location = Location { utf8: 5 };
    assert_eq!(location.advanced_by(Length { utf8: 0 }), location);
    assert_eq!(location.advanced_by(Length { utf8: 7 }), Location { utf8: 12 });
    assert_eq!(Location::default(), Location { utf8: 0 });
}

#[test]
fn code_knows_where_it_lies() {
    let code = Code::from_str_at_location("hello", Location { utf8: 10 });
    assert_eq!(code.repr(), "hello");
    assert_eq!(code.start(), Location { utf8: 10 });
    assert_eq!(code.end(), Location { utf8: 15 });
    assert_eq!(code.length(), Length { utf8: 5 });
    assert!(!code.is_empty());
    let before = code.position_before();
    assert!(before.is_empty());
    assert_eq!(before.start(), Location { utf8: 10 });
    let after = code.position_after();
    assert!(after.is_empty());
    assert_eq!(after.start(), Location { utf8: 15 });
    assert_eq!(after, Code::empty(Location { utf8: 15 }));
}

#[test]
fn code_without_location_lies_at_the_start() {
    let code = Code::from_str_at_location("hello", Location { utf8: 10 });
    let stripped = code.without_location();
    assert_eq!(stripped, Code::from_str_without_location("hello"));
    assert_eq!(stripped.start(), Location { utf8: 0 });
    assert_eq!(stripped.repr(), "hello");
    assert_ne!(stripped, code);
    assert_eq!(Code::default(), Code::empty(Location { utf8: 0 }));
}

#[test]
fn code_is_equal_by_text_and_position() {
    let a = Code::from_str_at_location("hello", Location { utf8: 1 });
    assert_eq!(a, Code::from_str_at_location(&"say hello"[4..], Location { utf8: 1 }));
    assert_ne!(a, Code::from_str_at_location("hello", Location { utf8: 2 }));
    assert_ne!(a, Code::from_str_at_location("hellp", Location { utf8: 1 }));
    assert_ne!(a, Code::from_str_at_location("hell", Location { utf8: 1 }));
    assert_ne!(a, Code::from_str_at_location("helloo", Location { utf8: 1 }));
    assert_ne!(a, Code::from_str_at_location("", Location { utf8: 1 }));
}

#[test]
fn code_splits_where_asked() {
    let code = Code::from_str_at_location("a🦀b", Location { utf8: 3 });
    assert!(code.can_split_at(Length { utf8: 1 }));
    assert!(!code.can_split_at(Length { utf8: 2 }));
    assert!(!code.can_split_at(Length { utf8: 4 }));
    assert!(code.can_split_at(Length { utf8: 5 }));
    assert!(code.can_split_at(Length { utf8: 6 }));
    assert!(!code.can_split_at(Length { utf8: 7 }));
    let (left, right) = code.split_at(Length { utf8: 5 });
    assert_eq!(left, Code::from_str_at_location("a🦀", Location { utf8: 3 }));
    assert_eq!(right, Code::from_str_at_location("b", Location { utf8: 8 }));
}

#[test]
fn code_taken_as_prefix_leaves_its_end() {
    let mut code = Code::from_str_at_location("hello", Location { utf8: 10 });
    let taken = code.take_as_prefix();
    assert_eq!(taken, Code::from_str_at_location("hello", Location { utf8: 10 }));
    assert_eq!(code, Code::empty(Location { utf8: 15 }));
}

#[test]
fn offset_knows_its_text_and_width() {
    let offset = Offset(VisibleOffset(5), Code::from_str_at_location(" \t", Location { utf8: 3 }));
    assert_eq!(offset.visible.width_in_spaces, 5);
    assert_eq!(offset.len(), Length { utf8: 2 });
    assert!(!offset.is_empty());
    assert!(Offset::empty(Location { utf8: 3 }).is_empty());
    assert_eq!(VisibleOffset::default(), VisibleOffset(0));
    let stripped = offset.without_offset();
    assert_eq!(stripped, Offset(VisibleOffset(5), Code::from_str_without_location(" \t")));
    assert_ne!(stripped, offset);
    assert_ne!(offset, Offset(VisibleOffset(2), Code::from_str_at_location(" \t", Location { utf8: 3 })));
}

#[test]
fn offset_taken_as_prefix_leaves_an_empty_one() {
    let mut offset = Offset(VisibleOffset(2), Code::from_str_at_location("  ", Location { utf8: 3 }));
    let taken = offset.take_as_prefix();
    assert_eq!(taken, Offset(VisibleOffset(2), Code::from_str_at_location("  ", Location { utf8: 3 })));
    assert_eq!(offset, Offset::empty(Location { utf8: 5 }));
    assert_eq!(offset.visible, VisibleOffset(0));
}
