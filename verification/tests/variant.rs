use enso_parser::syntax::token::variant;
use enso_parser::syntax::token::Base;
use enso_parser::syntax::token::Codepoint;
use enso_parser::syntax::token::OperatorProperties;
use enso_parser::syntax::token::Variant;
use enso_parser::syntax::token::VariantMarker;

/// One value of every kind, with the kind's marker.
fn one_of_each() -> Vec<(Variant, VariantMarker)> {
    vec![
        (Variant::newline(), VariantMarker::Newline),
        (Variant::open_symbol(), VariantMarker::OpenSymbol),
        (Variant::close_symbol(), VariantMarker::CloseSymbol),
        (Variant::block_start(), VariantMarker::BlockStart),
        (Variant::block_end(), VariantMarker::BlockEnd),
        (Variant::wildcard(2), VariantMarker::Wildcard),
        (Variant::suspended_default_arguments(), VariantMarker::SuspendedDefaultArguments),
        (Variant::ident(true, 1, false, true, false), VariantMarker::Ident),
        (Variant::operator(OperatorProperties::new().as_dot()), VariantMarker::Operator),
        (Variant::digits(Some(Base::Hexadecimal)), VariantMarker::Digits),
        (Variant::number_base(), VariantMarker::NumberBase),
        (Variant::private(), VariantMarker::Private),
        (Variant::text_start(), VariantMarker::TextStart),
        (Variant::text_end(), VariantMarker::TextEnd),
        (Variant::text_section(), VariantMarker::TextSection),
        (Variant::text_escape(Codepoint::from_char('\n')), VariantMarker::TextEscape),
        (Variant::text_initial_newline(), VariantMarker::TextInitialNewline),
        (Variant::text_newline(), VariantMarker::TextNewline),
        (Variant::invalid(), VariantMarker::Invalid),
    ]
}

#[test]
fn every_kind_has_its_marker() {
    let all = one_of_each();
    assert_eq!(all.len(), 19);
    for (i, (value, marker)) in all.iter().enumerate() {
        assert_eq!(value.marker(), *marker);
        for (j, (other, other_marker)) in all.iter().enumerate() {
            assert_eq!(value == other, i == j);
            assert_eq!(marker == other_marker, i == j);
        }
    }
}

#[test]
fn macro_segment_starts_with_all_but_text_parts_and_invalid() {
    for (value, marker) in one_of_each() {
        let excluded = matches!(
            marker,
            VariantMarker::TextEscape
                | VariantMarker::TextSection
                | VariantMarker::TextStart
                | VariantMarker::TextEnd
                | VariantMarker::Invalid
        );
        assert_eq!(value.can_start_macro_segment(), !excluded);
    }
    assert!(Variant::newline().can_start_macro_segment());
    assert!(Variant::text_newline().can_start_macro_segment());
    assert!(Variant::text_initial_newline().can_start_macro_segment());
    assert!(Variant::operator(OperatorProperties::new()).can_start_macro_segment());
    assert!(!Variant::text_escape(Codepoint::none()).can_start_macro_segment());
    assert!(!Variant::text_section().can_start_macro_segment());
    assert!(!Variant::text_start().can_start_macro_segment());
    assert!(!Variant::text_end().can_start_macro_segment());
    assert!(!Variant::invalid().can_start_macro_segment());
}

#[test]
fn default_variant_is_a_line_break() {
    assert_eq!(Variant::default(), Variant::Newline(variant::Newline {}));
    assert_eq!(Variant::default(), Variant::newline());
    assert_eq!(Variant::default().marker(), VariantMarker::Newline);
}

#[test]
fn kind_converts_into_the_union_and_back() {
    let ident = variant::Ident(true, 2, false, true, false);
    let any: Variant = ident.into();
    assert_eq!(any, Variant::Ident(ident));
    assert_eq!(any, Variant::ident(true, 2, false, true, false));
    assert_eq!(variant::Ident::try_from(any), Ok(ident));
    let escape = variant::TextEscape(Codepoint::from_u32(0xD800));
    assert_eq!(variant::TextEscape::try_from(Variant::from(escape)), Ok(escape));
    let digits = variant::Digits(Some(Base::Binary));
    assert_eq!(variant::Digits::try_from(Variant::from(digits)), Ok(digits));
    let operator = variant::Operator(OperatorProperties::new().with_binary_infix_precedence(7));
    assert_eq!(variant::Operator::try_from(Variant::from(operator)), Ok(operator));
    assert_eq!(variant::Newline::try_from(Variant::from(variant::Newline())), Ok(variant::Newline {}));
}

#[test]
fn conversion_keeps_different_values_apart() {
    assert_ne!(Variant::from(variant::Wildcard(1)), Variant::from(variant::Wildcard(2)));
    assert_ne!(Variant::from(variant::Digits(None)), Variant::from(variant::Digits(Some(Base::Octal))));
    assert_ne!(
        Variant::from(variant::Ident(true, 0, false, false, false)),
        Variant::from(variant::Ident(true, 0, false, false, true))
    );
}

#[test]
fn union_converts_into_its_own_kind_only() {
    let any = Variant::wildcard(1);
    assert_eq!(variant::Wildcard::try_from(any), Ok(variant::Wildcard { lift_level: 1 }));
    assert_eq!(variant::Ident::try_from(any), Err(()));
    assert_eq!(variant::Newline::try_from(any), Err(()));
    assert_eq!(variant::Invalid::try_from(any), Err(()));
    assert_eq!(variant::Wildcard::try_from(Variant::invalid()), Err(()));
    assert_eq!(variant::TextEnd::try_from(Variant::text_start()), Err(()));
}

#[test]
fn default_of_each_kind_holds_nothing() {
    assert_eq!(variant::Wildcard::default(), variant::Wildcard { lift_level: 0 });
    assert_eq!(variant::Ident::default(), variant::Ident(false, 0, false, false, false));
    assert_eq!(variant::Operator::default(), variant::Operator(OperatorProperties::new()));
    assert_eq!(variant::Digits::default(), variant::Digits(None));
    assert_eq!(variant::TextEscape::default(), variant::TextEscape(Codepoint::none()));
    assert_eq!(variant::Newline::default(), variant::Newline {});
}

#[test]
fn kinds_are_equal_when_all_their_fields_are() {
    let ident = variant::Ident(true, 1, true, true, true);
    assert_eq!(ident, variant::Ident(true, 1, true, true, true));
    assert_ne!(ident, variant::Ident(false, 1, true, true, true));
    assert_ne!(ident, variant::Ident(true, 2, true, true, true));
    assert_ne!(ident, variant::Ident(true, 1, false, true, true));
    assert_ne!(ident, variant::Ident(true, 1, true, false, true));
    assert_ne!(ident, variant::Ident(true, 1, true, true, false));
    assert_eq!(variant::Wildcard(3), variant::Wildcard(3));
    assert_ne!(variant::Wildcard(3), variant::Wildcard(4));
    assert_eq!(variant::Digits(Some(Base::Octal)), variant::Digits(Some(Base::Octal)));
    assert_ne!(variant::Digits(Some(Base::Octal)), variant::Digits(Some(Base::Binary)));
    assert_ne!(variant::Digits(Some(Base::Octal)), variant::Digits(None));
    assert_eq!(variant::TextEscape(Codepoint::from_u32(7)), variant::TextEscape(Codepoint::from_u32(7)));
    assert_ne!(variant::TextEscape(Codepoint::from_u32(7)), variant::TextEscape(Codepoint::none()));
    let plain = OperatorProperties::new();
    assert_eq!(variant::Operator(plain.as_dot()), variant::Operator(plain.as_dot()));
    assert_ne!(variant::Operator(plain.as_dot()), variant::Operator(plain));
    assert_eq!(variant::Newline(), variant::Newline());
    assert_eq!(variant::Invalid(), variant::Invalid {});
}

#[test]
fn bases_are_equal_to_themselves_only() {
    let all = [Base::Binary, Base::Octal, Base::Hexadecimal];
    for (i, a) in all.iter().enumerate() {
        for (j, b) in all.iter().enumerate() {
            assert_eq!(a == b, i == j);
        }
    }
}

#[test]
fn values_of_one_kind_differ_by_their_data() {
    assert_eq!(Variant::wildcard(1), Variant::wildcard(1));
    assert_ne!(Variant::wildcard(1), Variant::wildcard(2));
    assert_ne!(Variant::digits(None), Variant::digits(Some(Base::Binary)));
    assert_ne!(Variant::text_start(), Variant::text_end());
    assert_eq!(Variant::text_escape(Codepoint::from_char('a')), Variant::text_escape(Codepoint::from_u32(0x61)));
}
