//! How tightly an operator binds.

use core::cmp::Ordering;
use vstd::prelude::*;
use vstd::std_specs::cmp::PartialOrdSpec;

verus! {

/// The value of the sentinel below every operator.
pub const MIN_VALUE: u32 = 0;

/// The value of the sentinel above every operator.
pub const MAX_VALUE: u32 = 100;

/// A value that is compared to find out which of two operators binds more tightly within an
/// expression. The values lie between 0 and 100; both ends are sentinels that no operator has.
#[derive(Clone, Copy, Debug, PartialEq, Eq, Structural, Ord, Hash)]
pub struct Precedence {
    /// A numeric value determining precedence order.
    value: u32,
}

impl View for Precedence {
    type V = u32;

    /// The numeric value.
    closed spec fn view(&self) -> u32 {
        self.value
    }
}

impl PartialOrd for Precedence {
    /// Precedences are ordered as their numeric values are.
    fn partial_cmp(&self, other: &Self) -> (r: Option<Ordering>) {
        if self.value < other.value {
            Some(Ordering::Less)
        } else if self.value == other.value {
            Some(Ordering::Equal)
        } else {
            Some(Ordering::Greater)
        }
    }
}

impl vstd::std_specs::cmp::PartialOrdSpecImpl for Precedence {
    open spec fn obeys_partial_cmp_spec() -> bool {
        true
    }

    open spec fn partial_cmp_spec(&self, other: &Self) -> Option<Ordering> {
        if self@ < other@ {
            Some(Ordering::Less)
        } else if self@ == other@ {
            Some(Ordering::Equal)
        } else {
            Some(Ordering::Greater)
        }
    }
}

impl Precedence {
    #[verifier::type_invariant]
    spec fn within_band(&self) -> bool {
        self.value <= MAX_VALUE
    }

    /// Whether the value is one that an operator can have: strictly between the two sentinels.
    pub open spec fn is_operator_value(value: u32) -> bool {
        MIN_VALUE < value < MAX_VALUE
    }

    /// Whether this is a precedence that an operator can have: strictly between the two
    /// sentinels.
    pub open spec fn is_operator_level(self) -> bool {
        Self::is_operator_value(self@)
    }

    /// Whether this precedence is lower than the other.
    pub open spec fn is_below(self, other: Precedence) -> bool {
        self.partial_cmp_spec(&other) == Some(Ordering::Less)
    }

    /// A precedence that an operator can have lies strictly between the two sentinels, in the
    /// order in which precedences are compared.
    pub proof fn lemma_operator_level_lies_between_sentinels(
        level: Precedence,
        lowest: Precedence,
        highest: Precedence,
    )
        requires
            level.is_operator_level(),
            lowest@ == MIN_VALUE,
            highest@ == MAX_VALUE,
        ensures
            lowest.is_below(level),
            level.is_below(highest),
    {
    }

    /// Precedences are in a total order, that of their values: of two precedences either one
    /// is below the other, or they are the same.
    pub proof fn lemma_order_is_total(a: Precedence, b: Precedence)
        ensures
            a.is_below(b) <==> a@ < b@,
            a.is_below(b) || b.is_below(a) || a == b,
            !(a.is_below(b) && b.is_below(a)),
            !a.is_below(a),
    {
    }

    /// Two precedences with the same numeric value are the same precedence.
    pub proof fn lemma_view_is_injective(a: Precedence, b: Precedence)
        requires
            a@ == b@,
        ensures
            a == b,
    {
    }

    /// Return the precedence of the given value, which must be one that an operator can have.
    pub(crate) fn of_operator(value: u32) -> (r: Self)
        requires
            Self::is_operator_value(value),
        ensures
            r@ == value,
    {
        Precedence { value }
    }

    /// Return the numeric value.
    pub fn value(self) -> (r: u32)
        ensures
            r == self@,
            r <= MAX_VALUE,
    {
        proof {
            use_type_invariant(&self);
        }
        self.value
    }

    /// Return a precedence that is lower than the precedence of any operator.
    pub fn min() -> (r: Self)
        ensures
            r@ == MIN_VALUE,
    {
        Precedence { value: MIN_VALUE }
    }

    /// Return the lowest precedence that an operator can have.
    pub fn min_valid() -> (r: Self)
        ensures
            r@ == 1,
    {
        Precedence { value: 1 }
    }

    /// Return a precedence that is higher than the precedence of any operator.
    pub fn max() -> (r: Self)
        ensures
            r@ == MAX_VALUE,
    {
        Precedence { value: MAX_VALUE }
    }

    /// Return the precedence of application.
    pub fn application() -> (r: Self)
        ensures
            r@ == 80,
    {
        Precedence { value: 80 }
    }

    /// Return the precedence of unary minus.
    pub fn unary_minus() -> (r: Self)
        ensures
            r@ == 79,
    {
        Precedence { value: 79 }
    }

    /// Return the precedence of unary minus when applied to a numeric literal. It is that of
    /// application, so that `-1` is read as one number.
    pub fn unary_minus_numeric_literal() -> (r: Self)
        ensures
            r@ == 80,
    {
        Precedence { value: 80 }
    }
}

} // verus!
