//! The value of a character escape in a text literal.

use vstd::prelude::*;
use vstd::utf8::is_scalar;

verus! {

/// The bit pattern that stands for the absence of a codepoint.
pub const NONE_BITS: u32 = 0xFFFF_FFFF;

/// Whether the value is a surrogate: a code point that no `char` can hold, and that Enso text
/// accepts in an escape sequence all the same.
pub open spec fn is_surrogate(value: u32) -> bool {
    0xD800 <= value <= 0xDFFF
}

/// `char::from_u32` of the standard library: the `char` with the given scalar value, and nothing
/// for a value that is no Unicode scalar value (a surrogate, or a value above `0x10FFFF`). This
/// is taken from the documentation of the standard library and is not proved here.
pub assume_specification[ char::from_u32 ](i: u32) -> (r: Option<char>)
    ensures
        r == (if is_scalar(i) {
            Some(i as char)
        } else {
            None
        }),
;

/// One of three things, in 32 bits:
/// - a valid Unicode codepoint (a `char`);
/// - a value that is no legal codepoint, but that Enso text accepts in an escape sequence: an
///   unpaired surrogate;
/// - the absence of a codepoint. It is part of this type, so that an optional codepoint needs
///   no wrapper and stays one plain number.
#[derive(Clone, Copy, Debug, PartialEq, Eq, Structural, Hash)]
pub struct Codepoint(u32);

impl View for Codepoint {
    type V = u32;

    /// The bit pattern.
    closed spec fn view(&self) -> u32 {
        self.0
    }
}

impl Default for Codepoint {
    fn default() -> (r: Self)
        ensures
            r@ == NONE_BITS,
    {
        Codepoint::none()
    }
}

impl Codepoint {
    #[verifier::type_invariant]
    spec fn is_one_of_three(&self) -> bool {
        Self::is_state(self@)
    }

    /// Whether the bit pattern is one that a codepoint can have: a scalar value, a surrogate, or
    /// the pattern of absence.
    pub open spec fn is_state(bits: u32) -> bool {
        is_scalar(bits) || is_surrogate(bits) || bits == NONE_BITS
    }

    /// The bit pattern that `from_u32` gives for a value.
    pub open spec fn decode(value: u32) -> u32 {
        if is_scalar(value) || is_surrogate(value) {
            value
        } else {
            NONE_BITS
        }
    }

    /// Whether this is a valid Unicode codepoint.
    pub open spec fn is_valid(self) -> bool {
        is_scalar(self@)
    }

    /// Whether this is a value that is no legal codepoint but is accepted all the same.
    pub open spec fn is_allowed_invalid(self) -> bool {
        is_surrogate(self@)
    }

    /// Every number gives a codepoint in exactly one of the three states.
    pub proof fn lemma_decode_gives_one_state(value: u32)
        ensures
            Self::is_state(Self::decode(value)),
            !(is_scalar(Self::decode(value)) && is_surrogate(Self::decode(value))),
            !(is_scalar(Self::decode(value)) && Self::decode(value) == NONE_BITS),
            !(is_surrogate(Self::decode(value)) && Self::decode(value) == NONE_BITS),
            is_scalar(value) <==> is_scalar(Self::decode(value)),
            is_surrogate(value) <==> is_surrogate(Self::decode(value)),
    {
    }

    /// Two codepoints with the same bit pattern are the same codepoint.
    pub proof fn lemma_view_is_injective(a: Codepoint, b: Codepoint)
        requires
            a@ == b@,
        ensures
            a == b,
    {
    }

    /// Cast a `char` to a `Codepoint`. The result is always a valid codepoint, never the absent
    /// one.
    pub fn from_char(value: char) -> (r: Self)
        ensures
            r@ == value as u32,
            r.is_valid(),
    {
        proof {
            vstd::utf8::char_is_scalar(value);
        }
        Codepoint(value as u32)
    }

    /// Return whether the value is no legal codepoint but accepted all the same.
    fn is_allowed_invalid_codepoint(value: u32) -> (r: bool)
        ensures
            r == is_surrogate(value),
    {
        0xD800 <= value && value <= 0xDFFF
    }

    /// Make a codepoint of any number: a valid one if the number is a Unicode scalar value, an
    /// accepted invalid one if it is a surrogate, and the absent one otherwise.
    pub fn from_u32(value: u32) -> (r: Self)
        ensures
            r@ == Self::decode(value),
    {
        if let Some(c) = char::from_u32(value) {
            Self::from_char(c)
        } else if Self::is_allowed_invalid_codepoint(value) {
            Codepoint(value)
        } else {
            Codepoint::none()
        }
    }

    /// Return the value as a plain number: the scalar value, the surrogate, or the bit pattern
    /// of the absent codepoint. `from_u32` gives the codepoint back.
    pub fn to_u32(self) -> (r: u32)
        ensures
            r == self@,
            Self::decode(r) == self@,
    {
        proof {
            use_type_invariant(&self);
        }
        self.0
    }

    /// Return the absent codepoint.
    pub fn none() -> (r: Self)
        ensures
            r@ == NONE_BITS,
    {
        Codepoint(0xFFFF_FFFF)
    }

    /// Return whether this is the absent codepoint.
    pub fn is_none(self) -> (r: bool)
        ensures
            r == (self@ == NONE_BITS),
    {
        self.0 == Self::none().0
    }

    /// Return the value as a `char`, if it is a valid Unicode codepoint: neither the absent one
    /// nor a surrogate.
    pub fn to_char(self) -> (r: Option<char>)
        ensures
            r == (if self.is_valid() {
                Some(self@ as char)
            } else {
                None
            }),
            r is None <==> self.is_allowed_invalid() || self@ == NONE_BITS,
    {
        proof {
            use_type_invariant(&self);
        }
        char::from_u32(self.0)
    }
}

} // verus!
