use enso_parser::syntax::operator::SectionTermination;
use enso_parser::syntax::token::Associativity;
use enso_parser::syntax::token::OperatorProperties;
use enso_parser::syntax::token::Precedence;

#[test]
fn named_precedences_are_ordered() {
    assert!(Precedence::application() > Precedence::unary_minus());
    assert_eq!(Precedence::unary_minus_numeric_literal(), Precedence::application());
    assert!(Precedence::min() < Precedence::min_valid());
    assert!(Precedence::min_valid() < Precedence::unary_minus());
    assert!(Precedence::application() < Precedence::max());
    assert!(Precedence::min() < Precedence::max());
}

#[test]
fn named_precedences_have_their_values() {
    assert_eq!(Precedence::min().value(), 0);
    assert_eq!(Precedence::min_valid().value(), 1);
    assert_eq!(Precedence::unary_minus().value(), 79);
    assert_eq!(Precedence::application().value(), 80);
    assert_eq!(Precedence::unary_minus_numeric_literal().value(), 80);
    assert_eq!(Precedence::max().value(), 100);
}

#[test]
fn precedences_compare_as_their_values() {
    let low = OperatorProperties::new().with_binary_infix_precedence(3).binary_infix_precedence().unwrap();
    let high = OperatorProperties::new().with_binary_infix_precedence(14).binary_infix_precedence().unwrap();
    assert!(low < high);
    assert!(high > low);
    assert!(low <= low);
    assert!(low != high);
    assert_eq!(low.partial_cmp(&high), Some(std::cmp::Ordering::Less));
    assert_eq!(high.partial_cmp(&low), Some(std::cmp::Ordering::Greater));
    assert_eq!(low.partial_cmp(&low), Some(std::cmp::Ordering::Equal));
    assert_eq!(low.cmp(&high), std::cmp::Ordering::Less);
    assert_eq!(low.value(), 3);
}

#[test]
fn operator_precedence_lies_between_the_sentinels() {
    for value in [1, 2, 50, 79, 80, 99] {
        let properties = OperatorProperties::new().with_binary_infix_precedence(value);
        let precedence = properties.binary_infix_precedence().unwrap();
        assert_eq!(precedence.value(), value);
        assert!(precedence > Precedence::min());
        assert!(precedence < Precedence::max());
    }
    let unary = OperatorProperties::new().with_unary_prefix_mode(Precedence::unary_minus());
    assert_eq!(unary.unary_prefix_precedence(), Some(Precedence::unary_minus()));
    assert_eq!(unary.binary_infix_precedence(), None);
}

#[test]
fn new_operator_has_no_property() {
    let plain = OperatorProperties::new();
    assert_eq!(plain, OperatorProperties::default());
    assert_eq!(plain.binary_infix_precedence(), None);
    assert_eq!(plain.unary_prefix_precedence(), None);
    assert_eq!(plain.lhs_section_termination(), None);
    assert!(plain.can_form_section());
    assert_eq!(plain.associativity(), Associativity::Left);
    assert!(!plain.is_type_annotation());
    assert!(!plain.is_special());
    assert!(!plain.is_assignment());
    assert!(!plain.is_modifier());
    assert!(!plain.is_arrow());
    assert!(!plain.is_sequence());
    assert!(!plain.is_suspension());
    assert!(!plain.is_autoscope());
    assert!(!plain.is_annotation());
    assert!(!plain.is_dot());
    assert!(!plain.is_token_joiner());
    assert!(!plain.is_decimal());
}

#[test]
fn each_builder_sets_its_own_property() {
    let plain = OperatorProperties::new();
    let built = [
        plain.with_binary_infix_precedence(5),
        plain.with_unary_prefix_mode(Precedence::unary_minus()),
        plain.with_lhs_section_termination(Some(SectionTermination::Unwrap)),
        plain.as_compile_time_operation(),
        plain.as_right_associative(),
        plain.as_modifier(),
        plain.as_special(),
        plain.as_token_joiner(),
        plain.as_type_annotation(),
        plain.as_assignment(),
        plain.as_arrow(),
        plain.as_sequence(),
        plain.as_annotation(),
        plain.as_suspension(),
        plain.as_autoscope(),
        plain.as_dot(),
        plain.as_decimal(),
    ];
    for (i, a) in built.iter().enumerate() {
        assert_ne!(*a, plain);
        for (j, b) in built.iter().enumerate() {
            assert_eq!(a == b, i == j);
        }
    }
    assert_eq!(built[0].binary_infix_precedence().map(|p| p.value()), Some(5));
    assert_eq!(built[1].unary_prefix_precedence(), Some(Precedence::unary_minus()));
    assert_eq!(built[2].lhs_section_termination(), Some(SectionTermination::Unwrap));
    assert!(!built[3].can_form_section());
    assert_eq!(built[4].associativity(), Associativity::Right);
    assert!(built[5].is_modifier());
    assert!(built[6].is_special());
    assert!(built[7].is_token_joiner());
    assert!(built[8].is_type_annotation());
    assert!(built[9].is_assignment());
    assert!(built[10].is_arrow());
    assert!(built[11].is_sequence());
    assert!(built[12].is_annotation());
    assert!(built[13].is_suspension());
    assert!(built[14].is_autoscope());
    assert!(built[15].is_dot());
    assert!(built[16].is_decimal());
}

#[test]
fn builders_keep_what_was_set_before() {
    let properties = OperatorProperties::new()
        .with_binary_infix_precedence(2)
        .as_right_associative()
        .as_arrow()
        .with_lhs_section_termination(Some(SectionTermination::Reify))
        .with_unary_prefix_mode(Precedence::unary_minus())
        .as_compile_time_operation();
    assert_eq!(properties.binary_infix_precedence().map(|p| p.value()), Some(2));
    assert_eq!(properties.unary_prefix_precedence(), Some(Precedence::unary_minus()));
    assert_eq!(properties.lhs_section_termination(), Some(SectionTermination::Reify));
    assert_eq!(properties.associativity(), Associativity::Right);
    assert!(properties.is_arrow());
    assert!(!properties.can_form_section());
    assert!(!properties.is_dot());
    let again = properties.as_arrow().with_binary_infix_precedence(2);
    assert_eq!(again, properties);
    let cleared = properties.with_lhs_section_termination(None);
    assert_eq!(cleared.lhs_section_termination(), None);
    assert!(cleared.is_arrow());
}

#[test]
fn section_termination_defaults_to_reify() {
    assert_eq!(SectionTermination::default(), SectionTermination::Reify);
    assert_ne!(SectionTermination::Reify, SectionTermination::Unwrap);
}
