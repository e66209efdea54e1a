use enso_parser::source::code::Code;
use enso_parser::source::code::Length;
use enso_parser::source::code::Location;
use enso_parser::source::span::FirstChildTrim;
use enso_parser::source::span::Offset;
use enso_parser::source::span::VisibleOffset;
use enso_parser::syntax::token;
use enso_parser::syntax::token::render::render_all;
use enso_parser::syntax::token::variant;
use enso_parser::syntax::token::OperatorProperties;
use enso_parser::syntax::token::Precedence;
use enso_parser::syntax::token::Ref;
use enso_parser::syntax::token::Token;
use enso_parser::syntax::token::Variant;

/// The code that the source holds from byte `start` to byte `end`.
fn code_at(source: &str, start: usize, end: usize) -> Code<'_> {
    Code::from_str_at_location(&source[start..end], Location { utf8: start })
}

/// The offset that the source holds from byte `start` to byte `end`, one column for each byte.
fn offset_at(source: &str, start: usize, end: usize) -> Offset<'_> {
    Offset(VisibleOffset(end - start), code_at(source, start, end))
}

/// The tokens of `foo+1`, as a lexer gives them.
fn foo_plus_one(source: &str) -> Vec<Token<'_>> {
    let ident = token::ident(offset_at(source, 0, 0), code_at(source, 0, 3), false, 0, false, false, false);
    let properties = OperatorProperties::new().with_binary_infix_precedence(1);
    let operator = token::operator(offset_at(source, 3, 3), code_at(source, 3, 4), properties);
    let digits = token::digits(offset_at(source, 4, 4), code_at(source, 4, 5), None);
    vec![ident.into(), operator.into(), digits.into()]
}

#[test]
fn tokens_of_an_expression_render_its_source() {
    let source = "foo+1";
    let tokens = foo_plus_one(source);
    assert_eq!(render_all(&tokens), "foo+1");
    assert_eq!(tokens[0].render(), "foo");
    assert_eq!(tokens[1].render(), "+");
    assert_eq!(tokens[2].render(), "1");
    assert!(matches!(tokens[0].variant, Variant::Ident(_)));
    assert!(matches!(tokens[2].variant, Variant::Digits(variant::Digits { base: None })));
    match tokens[1].variant {
        Variant::Operator(operator) => {
            let precedence = operator.properties.binary_infix_precedence().unwrap();
            assert!(precedence > Precedence::min());
            assert!(precedence < Precedence::application());
            assert_eq!(precedence, Precedence::min_valid());
        }
        _ => panic!("the second token is an operator"),
    }
}

#[test]
fn tokens_with_whitespace_render_their_source() {
    let source = "  a  +\tb\n";
    let tokens: Vec<Token<'_>> = vec![
        token::ident(offset_at(source, 0, 2), code_at(source, 2, 3), false, 0, false, false, false).into(),
        token::operator(offset_at(source, 3, 5), code_at(source, 5, 6), OperatorProperties::new()).into(),
        token::ident(offset_at(source, 6, 7), code_at(source, 7, 8), false, 0, false, false, false).into(),
        token::newline(offset_at(source, 8, 8), code_at(source, 8, 9)).into(),
    ];
    assert_eq!(render_all(&tokens), source);
    assert_eq!(tokens[0].render(), "  a");
    assert_eq!(tokens[1].render(), "  +");
    assert_eq!(tokens[2].render(), "\tb");
    assert_eq!(tokens[3].render(), "\n");
}

#[test]
fn no_tokens_render_nothing() {
    let tokens: Vec<Token<'_>> = Vec::new();
    assert_eq!(render_all(&tokens), "");
}

#[test]
fn split_keeps_the_rendered_text() {
    let source = "  hello";
    let whole = token::ident(offset_at(source, 0, 2), code_at(source, 2, 7), false, 0, false, false, false);
    for n in 0..=5 {
        let (left, right) = whole.clone().split_at(Length { utf8: n });
        assert_eq!(format!("{}{}", left.render(), right.render()), whole.render());
        assert_eq!(left.code.repr(), &"hello"[..n]);
        assert_eq!(right.code.repr(), &"hello"[n..]);
    }
}

#[test]
fn split_places_the_parts() {
    let source = "  hello";
    let whole = token::ident(offset_at(source, 0, 2), code_at(source, 2, 7), false, 0, false, false, false);
    let (left, right) = whole.split_at(Length { utf8: 2 });
    assert_eq!(left.left_offset, offset_at(source, 0, 2));
    assert_eq!(left.code, code_at(source, 2, 4));
    assert_eq!(left.code.start(), Location { utf8: 2 });
    assert_eq!(left.code.length(), Length { utf8: 2 });
    assert_eq!(right.left_offset, Offset::empty(Location { utf8: 4 }));
    assert_eq!(right.left_offset.visible, VisibleOffset(0));
    assert!(right.left_offset.is_empty());
    assert_eq!(right.code, code_at(source, 4, 7));
    assert_eq!(right.code.start(), Location { utf8: 4 });
    assert_eq!(right.code.end(), Location { utf8: 7 });
    assert_eq!(left.variant, ());
    assert_eq!(right.variant, ());
}

#[test]
fn split_at_zero_leaves_only_the_offset_on_the_left() {
    let source = " \tx=1";
    let whole = token::ident(offset_at(source, 0, 2), code_at(source, 2, 5), false, 0, false, false, false);
    let (left, right) = whole.split_at(Length { utf8: 0 });
    assert!(left.code.is_empty());
    assert_eq!(left.code.length(), Length { utf8: 0 });
    assert_eq!(left.render(), " \t");
    assert_eq!(left.left_offset, offset_at(source, 0, 2));
    assert_eq!(right.render(), "x=1");
    assert_eq!(right.code, code_at(source, 2, 5));
    assert_eq!(right.left_offset, Offset::empty(Location { utf8: 2 }));
}

#[test]
fn split_at_the_end_leaves_no_code_on_the_right() {
    let source = "abc";
    let whole = token::ident(offset_at(source, 0, 0), code_at(source, 0, 3), false, 0, false, false, false);
    let (left, right) = whole.split_at(Length { utf8: 3 });
    assert_eq!(left.render(), "abc");
    assert_eq!(right.render(), "");
    assert!(right.code.is_empty());
    assert_eq!(right.code.start(), Location { utf8: 3 });
}

#[test]
fn split_counts_in_bytes_between_characters() {
    let source = "żółw";
    assert_eq!(source.len(), 7);
    let code = Code::from_str_at_location(source, Location { utf8: 10 });
    assert!(code.can_split_at(Length { utf8: 0 }));
    assert!(!code.can_split_at(Length { utf8: 1 }));
    assert!(code.can_split_at(Length { utf8: 2 }));
    assert!(!code.can_split_at(Length { utf8: 3 }));
    assert!(code.can_split_at(Length { utf8: 4 }));
    assert!(code.can_split_at(Length { utf8: 6 }));
    assert!(code.can_split_at(Length { utf8: 7 }));
    assert!(!code.can_split_at(Length { utf8: 8 }));
    let whole = Token(Offset::empty(Location { utf8: 10 }), code, Variant::default());
    let (left, right) = whole.split_at(Length { utf8: 4 });
    assert_eq!(left.code.repr(), "żó");
    assert_eq!(right.code.repr(), "łw");
    assert_eq!(right.code.start(), Location { utf8: 14 });
    assert_eq!(right.left_offset.code.start(), Location { utf8: 14 });
    assert_eq!(format!("{}{}", left.render(), right.render()), "żółw");
}

#[test]
fn without_offsets_is_idempotent() {
    let source = "  foo";
    let token = token::ident(offset_at(source, 0, 2), code_at(source, 2, 5), true, 1, false, false, false);
    let once = token.without_offsets();
    let twice = once.without_offsets();
    assert_eq!(once, twice);
    assert_eq!(once.code.start(), Location { utf8: 0 });
    assert_eq!(once.left_offset.code.start(), Location { utf8: 0 });
    assert_eq!(once.code.repr(), "foo");
    assert_eq!(once.left_offset.code.repr(), "  ");
    assert_eq!(once.left_offset.visible, VisibleOffset(2));
    assert_eq!(once.variant, token.variant);
}

#[test]
fn without_offsets_equates_tokens_at_different_positions() {
    let source = " x+ x";
    let first = token::ident(offset_at(source, 0, 1), code_at(source, 1, 2), false, 0, false, false, false);
    let second = token::ident(offset_at(source, 3, 4), code_at(source, 4, 5), false, 0, false, false, false);
    assert_ne!(first, second);
    assert!(first != second);
    assert_eq!(first.without_offsets(), second.without_offsets());
    assert!(&first.without_offsets() == second.without_offsets());
}

#[test]
fn without_offsets_keeps_other_differences() {
    let source = " x+ y";
    let first = token::ident(offset_at(source, 0, 1), code_at(source, 1, 2), false, 0, false, false, false);
    let other_text = token::ident(offset_at(source, 3, 4), code_at(source, 4, 5), false, 0, false, false, false);
    assert_ne!(first.without_offsets(), other_text.without_offsets());
    let other_variant = token::ident(offset_at(source, 0, 1), code_at(source, 1, 2), true, 0, false, false, false);
    assert_ne!(first.without_offsets(), other_variant.without_offsets());
    let other_width = token::ident(
        Offset(VisibleOffset(4), code_at(source, 0, 1)),
        code_at(source, 1, 2),
        false,
        0,
        false,
        false,
        false,
    );
    assert_ne!(first.without_offsets(), other_width.without_offsets());
}

#[test]
fn tokens_are_equal_when_all_their_parts_are() {
    let source = "ab ab";
    let a = token::ident(offset_at(source, 0, 0), code_at(source, 0, 2), false, 0, false, false, false);
    let same = token::ident(offset_at(source, 0, 0), code_at(source, 0, 2), false, 0, false, false, false);
    let elsewhere = token::ident(offset_at(source, 0, 0), code_at(source, 3, 5), false, 0, false, false, false);
    let shorter = token::ident(offset_at(source, 0, 0), code_at(source, 0, 1), false, 0, false, false, false);
    assert_eq!(a, same);
    assert_ne!(a, elsewhere);
    assert_ne!(a, shorter);
    assert_eq!(a.clone(), a);
}

#[test]
fn map_variant_keeps_the_spans() {
    let source = " 12";
    let digits = token::digits(offset_at(source, 0, 1), code_at(source, 1, 3), Some(token::Base::Octal));
    let mapped = digits.clone().map_variant(|d| d.base.is_some());
    assert_eq!(mapped.variant, true);
    assert_eq!(mapped.left_offset, digits.left_offset);
    assert_eq!(mapped.code, digits.code);
    let replaced = digits.clone().with_variant(7u8);
    assert_eq!(replaced.variant, 7u8);
    assert_eq!(replaced.left_offset, digits.left_offset);
    assert_eq!(replaced.code, digits.code);
}

#[test]
fn span_borrows_the_offset_and_measures_the_code() {
    let source = "   żółw";
    let token = token::ident(offset_at(source, 0, 3), code_at(source, 3, 10), false, 0, false, false, false);
    let span = token.span();
    assert_eq!(span.left_offset, &token.left_offset);
    assert_eq!(span.code_length, Length { utf8: 7 });
    assert_eq!(span.left_offset.len(), Length { utf8: 3 });
}

#[test]
fn trim_as_first_child_hands_the_offset_over() {
    let source = "x   foo";
    let mut token = token::ident(offset_at(source, 1, 4), code_at(source, 4, 7), false, 0, false, false, false);
    let span = token.trim_as_first_child();
    assert_eq!(span.left_offset, offset_at(source, 1, 4));
    assert_eq!(span.code_length, Length { utf8: 3 });
    assert_eq!(token.left_offset, Offset::empty(Location { utf8: 4 }));
    assert!(token.left_offset.is_empty());
    assert_eq!(token.left_offset.visible, VisibleOffset(0));
    assert_eq!(token.code, code_at(source, 4, 7));
    assert_eq!(token.render(), "foo");
    let again = token.trim_as_first_child();
    assert_eq!(again.left_offset, Offset::empty(Location { utf8: 4 }));
    assert_eq!(token.left_offset, Offset::empty(Location { utf8: 4 }));
}

#[test]
fn token_of_a_kind_converts_into_token_of_any_kind() {
    let source = " _";
    let wildcard = token::wildcard(offset_at(source, 0, 1), code_at(source, 1, 2), 3);
    let any: Token<'_> = wildcard.clone().into();
    assert_eq!(any.variant, Variant::Wildcard(variant::Wildcard { lift_level: 3 }));
    assert_eq!(any.left_offset, wildcard.left_offset);
    assert_eq!(any.code, wildcard.code);
    assert_eq!(any, Token(wildcard.left_offset, wildcard.code, Variant::wildcard(3)));
}

#[test]
fn reference_borrows_the_spans_and_converts_the_variant() {
    let source = " _";
    let wildcard = token::wildcard(offset_at(source, 0, 1), code_at(source, 1, 2), 3);
    let reference: Ref<'_, '_> = Ref::from(&wildcard);
    assert_eq!(reference.data, Variant::wildcard(3));
    assert!(std::ptr::eq(reference.left_offset, &wildcard.left_offset));
    assert!(std::ptr::eq(reference.code, &wildcard.code));
    let copy = reference;
    assert_eq!(copy, reference);
    assert_eq!(reference.clone(), reference);
}

#[test]
fn token_gives_access_to_its_variant() {
    let source = "_";
    let mut wildcard = token::wildcard(offset_at(source, 0, 0), code_at(source, 0, 1), 3);
    assert_eq!(wildcard.lift_level, 3);
    wildcard.lift_level = 4;
    assert_eq!(wildcard.variant, variant::Wildcard(4));
    assert_eq!(wildcard.code.repr(), "_");
}

#[test]
fn default_token_is_an_empty_line_break() {
    let token: Token<'_> = Token::default();
    assert_eq!(token.variant, Variant::Newline(variant::Newline {}));
    assert_eq!(token.render(), "");
    assert_eq!(token.code.start(), Location { utf8: 0 });
    assert_eq!(token.left_offset, Offset::default());
}
