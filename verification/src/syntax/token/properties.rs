//! What the lexer knows of an operator.

use crate::syntax::operator::SectionTermination;
use crate::syntax::token::precedence::Precedence;
use vstd::prelude::*;

verus! {

/// Associativity (left or right).
#[derive(Clone, Copy, Debug, PartialEq, Eq, Structural, Hash)]
pub enum Associativity {
    /// Left-associative.
    Left,
    /// Right-associative.
    Right,
}

/// What an [`OperatorProperties`] stands for: its properties, one by one.
pub struct OperatorPropertiesView {
    /// The precedence as a binary infix operator, if it can be one.
    pub binary_infix_precedence: Option<Precedence>,
    /// The precedence as a unary prefix operator, if it can be one.
    pub unary_prefix_precedence: Option<Precedence>,
    /// What becomes of a section in which the left operand is left out.
    pub lhs_section_termination: Option<SectionTermination>,
    /// Whether the operator is a compile time operation.
    pub is_compile_time_operation: bool,
    /// Whether the operator is right associative.
    pub is_right_associative: bool,
    /// Whether the operator is a modified-assignment operator.
    pub is_modifier: bool,
    /// Whether the operator is a decimal point.
    pub is_decimal: bool,
    /// Whether the operator is the type annotation operator.
    pub is_type_annotation: bool,
    /// Whether the operator is the assignment operator.
    pub is_assignment: bool,
    /// Whether the operator is the arrow operator.
    pub is_arrow: bool,
    /// Whether the operator is the sequence operator.
    pub is_sequence: bool,
    /// Whether the operator is the execution-suspension operator.
    pub is_suspension: bool,
    /// Whether the operator is the autoscope operator.
    pub is_autoscope: bool,
    /// Whether the operator is the annotation operator.
    pub is_annotation: bool,
    /// Whether the operator is the dot operator.
    pub is_dot: bool,
    /// Whether the operator is special: illegal outside special uses.
    pub is_special: bool,
    /// Whether the operator is the token-joiner operator.
    pub is_token_joiner: bool,
}

impl OperatorPropertiesView {
    /// The properties of an operator of which nothing is known: no precedence, no section
    /// behavior, no flag.
    pub open spec fn plain() -> OperatorPropertiesView {
        OperatorPropertiesView {
            binary_infix_precedence: None,
            unary_prefix_precedence: None,
            lhs_section_termination: None,
            is_compile_time_operation: false,
            is_right_associative: false,
            is_modifier: false,
            is_decimal: false,
            is_type_annotation: false,
            is_assignment: false,
            is_arrow: false,
            is_sequence: false,
            is_suspension: false,
            is_autoscope: false,
            is_annotation: false,
            is_dot: false,
            is_special: false,
            is_token_joiner: false,
        }
    }

    /// Whether each precedence that is there is one that an operator can have.
    pub open spec fn has_operator_levels(self) -> bool {
        &&& self.binary_infix_precedence matches Some(p) ==> p.is_operator_level()
        &&& self.unary_prefix_precedence matches Some(p) ==> p.is_operator_level()
    }

    /// The side to which operators of this kind group.
    pub open spec fn associativity(self) -> Associativity {
        if self.is_right_associative {
            Associativity::Right
        } else {
            Associativity::Left
        }
    }
}

/// Properties of an operator that are identified when lexing.
#[derive(Clone, Copy, Debug, PartialEq, Eq, Structural, PartialOrd, Ord, Hash)]
pub struct OperatorProperties {
    // Precedence
    binary_infix_precedence: Option<Precedence>,
    unary_prefix_precedence: Option<Precedence>,
    // Operator section behavior
    lhs_section_termination: Option<SectionTermination>,
    // Special properties
    is_compile_time_operation: bool,
    is_right_associative: bool,
    is_modifier: bool,
    // Unique operators
    is_decimal: bool,
    is_type_annotation: bool,
    is_assignment: bool,
    is_arrow: bool,
    is_sequence: bool,
    is_suspension: bool,
    is_autoscope: bool,
    is_annotation: bool,
    is_dot: bool,
    is_special: bool,
    is_token_joiner: bool,
}

impl View for OperatorProperties {
    type V = OperatorPropertiesView;

    closed spec fn view(&self) -> OperatorPropertiesView {
        OperatorPropertiesView {
            binary_infix_precedence: self.binary_infix_precedence,
            unary_prefix_precedence: self.unary_prefix_precedence,
            lhs_section_termination: self.lhs_section_termination,
            is_compile_time_operation: self.is_compile_time_operation,
            is_right_associative: self.is_right_associative,
            is_modifier: self.is_modifier,
            is_decimal: self.is_decimal,
            is_type_annotation: self.is_type_annotation,
            is_assignment: self.is_assignment,
            is_arrow: self.is_arrow,
            is_sequence: self.is_sequence,
            is_suspension: self.is_suspension,
            is_autoscope: self.is_autoscope,
            is_annotation: self.is_annotation,
            is_dot: self.is_dot,
            is_special: self.is_special,
            is_token_joiner: self.is_token_joiner,
        }
    }
}

impl Default for OperatorProperties {
    fn default() -> (r: Self)
        ensures
            r@ == OperatorPropertiesView::plain(),
    {
        OperatorProperties {
            binary_infix_precedence: None,
            unary_prefix_precedence: None,
            lhs_section_termination: None,
            is_compile_time_operation: false,
            is_right_associative: false,
            is_modifier: false,
            is_decimal: false,
            is_type_annotation: false,
            is_assignment: false,
            is_arrow: false,
            is_sequence: false,
            is_suspension: false,
            is_autoscope: false,
            is_annotation: false,
            is_dot: false,
            is_special: false,
            is_token_joiner: false,
        }
    }
}

impl OperatorProperties {
    #[verifier::type_invariant]
    spec fn precedences_are_operator_levels(&self) -> bool {
        self@.has_operator_levels()
    }

    /// Two values with the same properties are the same value.
    pub proof fn lemma_view_is_injective(a: OperatorProperties, b: OperatorProperties)
        requires
            a@ == b@,
        ensures
            a == b,
    {
    }

    /// Construct an operator with default properties.
    pub fn new() -> (r: Self)
        ensures
            r@ == OperatorPropertiesView::plain(),
    {
        Default::default()
    }

    /// Return a copy of this operator, with the given binary infix precedence. The value must be
    /// one that an operator can have: above the lower sentinel and below the upper one.
    pub fn with_binary_infix_precedence(self, value: u32) -> (r: Self)
        requires
            Precedence::is_operator_value(value),
        ensures
            r@.binary_infix_precedence matches Some(p) && p@ == value,
            r@ == (OperatorPropertiesView {
                binary_infix_precedence: r@.binary_infix_precedence,
                ..self@
            }),
    {
        proof {
            use_type_invariant(&self);
        }
        let precedence = Precedence::of_operator(value);
        Self { binary_infix_precedence: Some(precedence), ..self }
    }

    /// Return a copy of this operator, with unary prefix parsing allowed. The precedence must be
    /// one that an operator can have: above the lower sentinel and below the upper one.
    pub fn with_unary_prefix_mode(self, precedence: Precedence) -> (r: Self)
        requires
            precedence.is_operator_level(),
        ensures
            r@ == (OperatorPropertiesView { unary_prefix_precedence: Some(precedence), ..self@ }),
    {
        proof {
            use_type_invariant(&self);
        }
        Self { unary_prefix_precedence: Some(precedence), ..self }
    }

    /// Return a copy of this operator, modified to be flagged as a compile time operation.
    pub fn as_compile_time_operation(self) -> (r: Self)
        ensures
            r@ == (OperatorPropertiesView { is_compile_time_operation: true, ..self@ }),
    {
        proof {
            use_type_invariant(&self);
        }
        Self { is_compile_time_operation: true, ..self }
    }

    /// Return a copy of this operator, modified to be flagged as right associative.
    pub fn as_right_associative(self) -> (r: Self)
        ensures
            r@ == (OperatorPropertiesView { is_right_associative: true, ..self@ }),
    {
        proof {
            use_type_invariant(&self);
        }
        Self { is_right_associative: true, ..self }
    }

    /// Return a copy of this operator, modified to be flagged as an modified-assignment operator.
    pub fn as_modifier(self) -> (r: Self)
        ensures
            r@ == (OperatorPropertiesView { is_modifier: true, ..self@ }),
    {
        proof {
            use_type_invariant(&self);
        }
        Self { is_modifier: true, ..self }
    }

    /// Return a copy of this operator, modified to be flagged as special.
    pub fn as_special(self) -> (r: Self)
        ensures
            r@ == (OperatorPropertiesView { is_special: true, ..self@ }),
    {
        proof {
            use_type_invariant(&self);
        }
        Self { is_special: true, ..self }
    }

    /// Return a copy of this operator, modified to be flagged as the token-joiner operator.
    pub fn as_token_joiner(self) -> (r: Self)
        ensures
            r@ == (OperatorPropertiesView { is_token_joiner: true, ..self@ }),
    {
        proof {
            use_type_invariant(&self);
        }
        Self { is_token_joiner: true, ..self }
    }

    /// Return a copy of this operator, modified to have the specified LHS operator-section/
    /// template-function behavior.
    pub fn with_lhs_section_termination(
        self,
        lhs_section_termination: Option<SectionTermination>,
    ) -> (r: Self)
        ensures
            r@ == (OperatorPropertiesView { lhs_section_termination, ..self@ }),
    {
        proof {
            use_type_invariant(&self);
        }
        Self { lhs_section_termination, ..self }
    }

    /// Return a copy of this operator, modified to be flagged as a type annotation operator.
    pub fn as_type_annotation(self) -> (r: Self)
        ensures
            r@ == (OperatorPropertiesView { is_type_annotation: true, ..self@ }),
    {
        proof {
            use_type_invariant(&self);
        }
        Self { is_type_annotation: true, ..self }
    }

    /// Return a copy of this operator, modified to be flagged as an assignment operator.
    pub fn as_assignment(self) -> (r: Self)
        ensures
            r@ == (OperatorPropertiesView { is_assignment: true, ..self@ }),
    {
        proof {
            use_type_invariant(&self);
        }
        Self { is_assignment: true, ..self }
    }

    /// Return a copy of this operator, modified to be flagged as an arrow operator.
    pub fn as_arrow(self) -> (r: Self)
        ensures
            r@ == (OperatorPropertiesView { is_arrow: true, ..self@ }),
    {
        proof {
            use_type_invariant(&self);
        }
        Self { is_arrow: true, ..self }
    }

    /// Return a copy of this operator, modified to be flagged as the sequence operator.
    pub fn as_sequence(self) -> (r: Self)
        ensures
            r@ == (OperatorPropertiesView { is_sequence: true, ..self@ }),
    {
        proof {
            use_type_invariant(&self);
        }
        Self { is_sequence: true, ..self }
    }

    /// Return a copy of this operator, modified to be flagged as the annotation operator.
    pub fn as_annotation(self) -> (r: Self)
        ensures
            r@ == (OperatorPropertiesView { is_annotation: true, ..self@ }),
    {
        proof {
            use_type_invariant(&self);
        }
        Self { is_annotation: true, ..self }
    }

    /// Return a copy of this operator, modified to be flagged as the execution-suspension operator.
    pub fn as_suspension(self) -> (r: Self)
        ensures
            r@ == (OperatorPropertiesView { is_suspension: true, ..self@ }),
    {
        proof {
            use_type_invariant(&self);
        }
        Self { is_suspension: true, ..self }
    }

    /// Return a copy of this operator, modified to be flagged as the autoscope operator.
    pub fn as_autoscope(self) -> (r: Self)
        ensures
            r@ == (OperatorPropertiesView { is_autoscope: true, ..self@ }),
    {
        proof {
            use_type_invariant(&self);
        }
        Self { is_autoscope: true, ..self }
    }

    /// Return a copy of this operator, modified to be flagged as the dot operator.
    pub fn as_dot(self) -> (r: Self)
        ensures
            r@ == (OperatorPropertiesView { is_dot: true, ..self@ }),
    {
        proof {
            use_type_invariant(&self);
        }
        Self { is_dot: true, ..self }
    }

    /// Return a copy of this operator, modified to be interpreted as a decimal point.
    pub fn as_decimal(self) -> (r: Self)
        ensures
            r@ == (OperatorPropertiesView { is_decimal: true, ..self@ }),
    {
        proof {
            use_type_invariant(&self);
        }
        Self { is_decimal: true, ..self }
    }

    /// Return this operator's binary infix precedence, if it has one. It is one that an operator
    /// can have.
    pub fn binary_infix_precedence(&self) -> (r: Option<Precedence>)
        ensures
            r == self@.binary_infix_precedence,
            r matches Some(p) ==> p.is_operator_level(),
    {
        proof {
            use_type_invariant(self);
        }
        self.binary_infix_precedence
    }

    /// Return this operator's unary prefix precedence, if it has one. It is one that an operator
    /// can have.
    pub fn unary_prefix_precedence(&self) -> (r: Option<Precedence>)
        ensures
            r == self@.unary_prefix_precedence,
            r matches Some(p) ==> p.is_operator_level(),
    {
        proof {
            use_type_invariant(self);
        }
        self.unary_prefix_precedence
    }

    /// Return whether this operator can form operator sections.
    pub fn can_form_section(&self) -> (r: bool)
        ensures
            r == !self@.is_compile_time_operation,
    {
        !self.is_compile_time_operation
    }

    /// Return whether this operator is the type annotation operator.
    pub fn is_type_annotation(&self) -> (r: bool)
        ensures
            r == self@.is_type_annotation,
    {
        self.is_type_annotation
    }

    /// Return the LHS operator-section/template-function behavior of this operator.
    pub fn lhs_section_termination(&self) -> (r: Option<SectionTermination>)
        ensures
            r == self@.lhs_section_termination,
    {
        self.lhs_section_termination
    }

    /// Return whether this operator is illegal outside special uses.
    pub fn is_special(&self) -> (r: bool)
        ensures
            r == self@.is_special,
    {
        self.is_special
    }

    /// Return whether this operator is the assignment operator.
    pub fn is_assignment(&self) -> (r: bool)
        ensures
            r == self@.is_assignment,
    {
        self.is_assignment
    }

    /// Return whether this operator is a modified-assignment operator.
    pub fn is_modifier(&self) -> (r: bool)
        ensures
            r == self@.is_modifier,
    {
        self.is_modifier
    }

    /// Return whether this operator is the arrow operator.
    pub fn is_arrow(&self) -> (r: bool)
        ensures
            r == self@.is_arrow,
    {
        self.is_arrow
    }

    /// Return whether this operator is the sequence operator.
    pub fn is_sequence(&self) -> (r: bool)
        ensures
            r == self@.is_sequence,
    {
        self.is_sequence
    }

    /// Return whether this operator is the execution-suspension operator.
    pub fn is_suspension(&self) -> (r: bool)
        ensures
            r == self@.is_suspension,
    {
        self.is_suspension
    }

    /// Return whether this operator is the autoscope operator.
    pub fn is_autoscope(&self) -> (r: bool)
        ensures
            r == self@.is_autoscope,
    {
        self.is_autoscope
    }

    /// Return whether this operator is the annotation operator.
    pub fn is_annotation(&self) -> (r: bool)
        ensures
            r == self@.is_annotation,
    {
        self.is_annotation
    }

    /// Return whether this operator is the dot operator.
    pub fn is_dot(&self) -> (r: bool)
        ensures
            r == self@.is_dot,
    {
        self.is_dot
    }

    /// Return whether this operator is the token-joiner operator.
    pub fn is_token_joiner(&self) -> (r: bool)
        ensures
            r == self@.is_token_joiner,
    {
        self.is_token_joiner
    }

    /// Return this operator's associativity.
    pub fn associativity(&self) -> (r: Associativity)
        ensures
            r == self@.associativity(),
    {
        match self.is_right_associative {
            false => Associativity::Left,
            true => Associativity::Right,
        }
    }

    /// Return whether this operator is a decimal point.
    pub fn is_decimal(&self) -> (r: bool)
        ensures
            r == self@.is_decimal,
    {
        self.is_decimal
    }
}

} // verus!
