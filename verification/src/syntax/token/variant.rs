//! The kinds of token, each with the data that a token of the kind carries, and the union of all
//! of them.
//!
//! Every kind is a struct of its own. A function of the same name builds it from its fields.
//! [`Variant`] holds a value of any kind, and [`VariantMarker`] names a kind without its data.
//!
//! Equality is written out by hand for every kind and for the union, so that what `==` returns
//! is known where tokens are compared: two values are equal when they are the same value.

pub mod conversion;

use crate::syntax::token::codepoint::Codepoint;
use crate::syntax::token::codepoint::NONE_BITS;
use crate::syntax::token::properties::OperatorProperties;
use crate::syntax::token::properties::OperatorPropertiesView;
use vstd::prelude::*;

verus! {

/// Alternate numeric bases (decimal is the default).
#[derive(Clone, Copy, Debug, Eq, Hash)]
pub enum Base {
    /// Base 2.
    Binary,
    /// Base 8.
    Octal,
    /// Base 16.
    Hexadecimal,
}

impl PartialEq for Base {
    fn eq(&self, other: &Self) -> (r: bool) {
        match (self, other) {
            (Base::Binary, Base::Binary) => true,
            (Base::Octal, Base::Octal) => true,
            (Base::Hexadecimal, Base::Hexadecimal) => true,
            _ => false,
        }
    }
}

impl vstd::std_specs::cmp::PartialEqSpecImpl for Base {
    open spec fn obeys_eq_spec() -> bool {
        true
    }

    open spec fn eq_spec(&self, other: &Self) -> bool {
        *self == *other
    }
}

/// A line break.
#[derive(Clone, Copy, Debug, Eq)]
pub struct Newline {

}

/// Constructor.
#[allow(non_snake_case)]
pub fn Newline() -> (r: Newline)
    ensures
        r == (Newline {  }),
{
    Newline {  }
}

impl PartialEq for Newline {
    fn eq(&self, other: &Self) -> (r: bool) {
        true
    }
}

impl vstd::std_specs::cmp::PartialEqSpecImpl for Newline {
    open spec fn obeys_eq_spec() -> bool {
        true
    }

    open spec fn eq_spec(&self, other: &Self) -> bool {
        *self == *other
    }
}

impl Default for Newline {
    fn default() -> (r: Self)
        ensures
            r == (Newline {  }),
    {
        Newline {  }
    }
}

/// An opening delimiter, such as `(`.
#[derive(Clone, Copy, Debug, Eq)]
pub struct OpenSymbol {

}

/// Constructor.
#[allow(non_snake_case)]
pub fn OpenSymbol() -> (r: OpenSymbol)
    ensures
        r == (OpenSymbol {  }),
{
    OpenSymbol {  }
}

impl PartialEq for OpenSymbol {
    fn eq(&self, other: &Self) -> (r: bool) {
        true
    }
}

impl vstd::std_specs::cmp::PartialEqSpecImpl for OpenSymbol {
    open spec fn obeys_eq_spec() -> bool {
        true
    }

    open spec fn eq_spec(&self, other: &Self) -> bool {
        *self == *other
    }
}

impl Default for OpenSymbol {
    fn default() -> (r: Self)
        ensures
            r == (OpenSymbol {  }),
    {
        OpenSymbol {  }
    }
}

/// A closing delimiter, such as `)`.
#[derive(Clone, Copy, Debug, Eq)]
pub struct CloseSymbol {

}

/// Constructor.
#[allow(non_snake_case)]
pub fn CloseSymbol() -> (r: CloseSymbol)
    ensures
        r == (CloseSymbol {  }),
{
    CloseSymbol {  }
}

impl PartialEq for CloseSymbol {
    fn eq(&self, other: &Self) -> (r: bool) {
        true
    }
}

impl vstd::std_specs::cmp::PartialEqSpecImpl for CloseSymbol {
    open spec fn obeys_eq_spec() -> bool {
        true
    }

    open spec fn eq_spec(&self, other: &Self) -> bool {
        *self == *other
    }
}

impl Default for CloseSymbol {
    fn default() -> (r: Self)
        ensures
            r == (CloseSymbol {  }),
    {
        CloseSymbol {  }
    }
}

/// The start of an indented block. It takes no text.
#[derive(Clone, Copy, Debug, Eq)]
pub struct BlockStart {

}

/// Constructor.
#[allow(non_snake_case)]
pub fn BlockStart() -> (r: BlockStart)
    ensures
        r == (BlockStart {  }),
{
    BlockStart {  }
}

impl PartialEq for BlockStart {
    fn eq(&self, other: &Self) -> (r: bool) {
        true
    }
}

impl vstd::std_specs::cmp::PartialEqSpecImpl for BlockStart {
    open spec fn obeys_eq_spec() -> bool {
        true
    }

    open spec fn eq_spec(&self, other: &Self) -> bool {
        *self == *other
    }
}

impl Default for BlockStart {
    fn default() -> (r: Self)
        ensures
            r == (BlockStart {  }),
    {
        BlockStart {  }
    }
}

/// The end of an indented block. It takes no text.
#[derive(Clone, Copy, Debug, Eq)]
pub struct BlockEnd {

}

/// Constructor.
#[allow(non_snake_case)]
pub fn BlockEnd() -> (r: BlockEnd)
    ensures
        r == (BlockEnd {  }),
{
    BlockEnd {  }
}

impl PartialEq for BlockEnd {
    fn eq(&self, other: &Self) -> (r: bool) {
        true
    }
}

impl vstd::std_specs::cmp::PartialEqSpecImpl for BlockEnd {
    open spec fn obeys_eq_spec() -> bool {
        true
    }

    open spec fn eq_spec(&self, other: &Self) -> bool {
        *self == *other
    }
}

impl Default for BlockEnd {
    fn default() -> (r: Self)
        ensures
            r == (BlockEnd {  }),
    {
        BlockEnd {  }
    }
}

/// The placeholder `_`.
#[derive(Clone, Copy, Debug, Eq)]
pub struct Wildcard {
    /// How many scopes the placeholder is lifted by.
    pub lift_level: u32,
}

/// Constructor.
#[allow(non_snake_case)]
pub fn Wildcard(lift_level: u32) -> (r: Wildcard)
    ensures
        r == (Wildcard { lift_level }),
{
    Wildcard { lift_level }
}

impl PartialEq for Wildcard {
    fn eq(&self, other: &Self) -> (r: bool) {
        self.lift_level == other.lift_level
    }
}

impl vstd::std_specs::cmp::PartialEqSpecImpl for Wildcard {
    open spec fn obeys_eq_spec() -> bool {
        true
    }

    open spec fn eq_spec(&self, other: &Self) -> bool {
        *self == *other
    }
}

impl Default for Wildcard {
    fn default() -> (r: Self)
        ensures
            r.lift_level == 0,
    {
        Wildcard { lift_level: 0 }
    }
}

/// The marker that suspends the default arguments of a call.
#[derive(Clone, Copy, Debug, Eq)]
pub struct SuspendedDefaultArguments {

}

/// Constructor.
#[allow(non_snake_case)]
pub fn SuspendedDefaultArguments() -> (r: SuspendedDefaultArguments)
    ensures
        r == (SuspendedDefaultArguments {  }),
{
    SuspendedDefaultArguments {  }
}

impl PartialEq for SuspendedDefaultArguments {
    fn eq(&self, other: &Self) -> (r: bool) {
        true
    }
}

impl vstd::std_specs::cmp::PartialEqSpecImpl for SuspendedDefaultArguments {
    open spec fn obeys_eq_spec() -> bool {
        true
    }

    open spec fn eq_spec(&self, other: &Self) -> bool {
        *self == *other
    }
}

impl Default for SuspendedDefaultArguments {
    fn default() -> (r: Self)
        ensures
            r == (SuspendedDefaultArguments {  }),
    {
        SuspendedDefaultArguments {  }
    }
}

/// An identifier.
#[derive(Clone, Copy, Debug, Eq)]
pub struct Ident {
    /// Whether the identifier is free, as opposed to bound.
    pub is_free: bool,
    /// How many scopes the identifier is lifted by.
    pub lift_level: u32,
    /// Whether the identifier names a type or a constructor.
    pub is_type: bool,
    /// Whether the identifier is spelled like an operator.
    pub is_operator_lexically: bool,
    /// Whether the identifier is the keyword for a default value. It is a hint for the parser and
    /// not part of what the source text shows.
    pub is_default: bool,
}

/// Constructor.
#[allow(non_snake_case)]
pub fn Ident(
    is_free: bool,
    lift_level: u32,
    is_type: bool,
    is_operator_lexically: bool,
    is_default: bool,
) -> (r: Ident)
    ensures
        r == (Ident { is_free, lift_level, is_type, is_operator_lexically, is_default }),
{
    Ident { is_free, lift_level, is_type, is_operator_lexically, is_default }
}

impl PartialEq for Ident {
    fn eq(&self, other: &Self) -> (r: bool) {
        self.is_free == other.is_free
            && self.lift_level == other.lift_level
            && self.is_type == other.is_type
            && self.is_operator_lexically == other.is_operator_lexically
            && self.is_default == other.is_default
    }
}

impl vstd::std_specs::cmp::PartialEqSpecImpl for Ident {
    open spec fn obeys_eq_spec() -> bool {
        true
    }

    open spec fn eq_spec(&self, other: &Self) -> bool {
        *self == *other
    }
}

impl Default for Ident {
    fn default() -> (r: Self)
        ensures
            !r.is_free,
            r.lift_level == 0,
            !r.is_type,
            !r.is_operator_lexically,
            !r.is_default,
    {
        Ident {
            is_free: false,
            lift_level: 0,
            is_type: false,
            is_operator_lexically: false,
            is_default: false,
        }
    }
}

/// An operator.
#[derive(Clone, Copy, Debug, Eq)]
pub struct Operator {
    /// What the lexer knows of the operator.
    pub properties: OperatorProperties,
}

/// Constructor.
#[allow(non_snake_case)]
pub fn Operator(properties: OperatorProperties) -> (r: Operator)
    ensures
        r == (Operator { properties }),
{
    Operator { properties }
}

impl PartialEq for Operator {
    fn eq(&self, other: &Self) -> (r: bool) {
        self.properties == other.properties
    }
}

impl vstd::std_specs::cmp::PartialEqSpecImpl for Operator {
    open spec fn obeys_eq_spec() -> bool {
        true
    }

    open spec fn eq_spec(&self, other: &Self) -> bool {
        *self == *other
    }
}

impl Default for Operator {
    fn default() -> (r: Self)
        ensures
            r.properties@ == OperatorPropertiesView::plain(),
    {
        Operator { properties: OperatorProperties::new() }
    }
}

/// A run of digits.
#[derive(Clone, Copy, Debug, Eq)]
pub struct Digits {
    /// The base in which the digits are written, where it is not ten.
    pub base: Option<Base>,
}

/// Constructor.
#[allow(non_snake_case)]
pub fn Digits(base: Option<Base>) -> (r: Digits)
    ensures
        r == (Digits { base }),
{
    Digits { base }
}

impl PartialEq for Digits {
    fn eq(&self, other: &Self) -> (r: bool) {
        self.base == other.base
    }
}

impl vstd::std_specs::cmp::PartialEqSpecImpl for Digits {
    open spec fn obeys_eq_spec() -> bool {
        true
    }

    open spec fn eq_spec(&self, other: &Self) -> bool {
        *self == *other
    }
}

impl Default for Digits {
    fn default() -> (r: Self)
        ensures
            r.base is None,
    {
        Digits { base: None }
    }
}

/// The prefix of a number that names its base.
#[derive(Clone, Copy, Debug, Eq)]
pub struct NumberBase {

}

/// Constructor.
#[allow(non_snake_case)]
pub fn NumberBase() -> (r: NumberBase)
    ensures
        r == (NumberBase {  }),
{
    NumberBase {  }
}

impl PartialEq for NumberBase {
    fn eq(&self, other: &Self) -> (r: bool) {
        true
    }
}

impl vstd::std_specs::cmp::PartialEqSpecImpl for NumberBase {
    open spec fn obeys_eq_spec() -> bool {
        true
    }

    open spec fn eq_spec(&self, other: &Self) -> bool {
        *self == *other
    }
}

impl Default for NumberBase {
    fn default() -> (r: Self)
        ensures
            r == (NumberBase {  }),
    {
        NumberBase {  }
    }
}

/// The keyword `private`.
#[derive(Clone, Copy, Debug, Eq)]
pub struct Private {

}

/// Constructor.
#[allow(non_snake_case)]
pub fn Private() -> (r: Private)
    ensures
        r == (Private {  }),
{
    Private {  }
}

impl PartialEq for Private {
    fn eq(&self, other: &Self) -> (r: bool) {
        true
    }
}

impl vstd::std_specs::cmp::PartialEqSpecImpl for Private {
    open spec fn obeys_eq_spec() -> bool {
        true
    }

    open spec fn eq_spec(&self, other: &Self) -> bool {
        *self == *other
    }
}

impl Default for Private {
    fn default() -> (r: Self)
        ensures
            r == (Private {  }),
    {
        Private {  }
    }
}

/// The opening quote of a text literal.
#[derive(Clone, Copy, Debug, Eq)]
pub struct TextStart {

}

/// Constructor.
#[allow(non_snake_case)]
pub fn TextStart() -> (r: TextStart)
    ensures
        r == (TextStart {  }),
{
    TextStart {  }
}

impl PartialEq for TextStart {
    fn eq(&self, other: &Self) -> (r: bool) {
        true
    }
}

impl vstd::std_specs::cmp::PartialEqSpecImpl for TextStart {
    open spec fn obeys_eq_spec() -> bool {
        true
    }

    open spec fn eq_spec(&self, other: &Self) -> bool {
        *self == *other
    }
}

impl Default for TextStart {
    fn default() -> (r: Self)
        ensures
            r == (TextStart {  }),
    {
        TextStart {  }
    }
}

/// The closing quote of a text literal.
#[derive(Clone, Copy, Debug, Eq)]
pub struct TextEnd {

}

/// Constructor.
#[allow(non_snake_case)]
pub fn TextEnd() -> (r: TextEnd)
    ensures
        r == (TextEnd {  }),
{
    TextEnd {  }
}

impl PartialEq for TextEnd {
    fn eq(&self, other: &Self) -> (r: bool) {
        true
    }
}

impl vstd::std_specs::cmp::PartialEqSpecImpl for TextEnd {
    open spec fn obeys_eq_spec() -> bool {
        true
    }

    open spec fn eq_spec(&self, other: &Self) -> bool {
        *self == *other
    }
}

impl Default for TextEnd {
    fn default() -> (r: Self)
        ensures
            r == (TextEnd {  }),
    {
        TextEnd {  }
    }
}

/// A run of plain characters in a text literal.
#[derive(Clone, Copy, Debug, Eq)]
pub struct TextSection {

}

/// Constructor.
#[allow(non_snake_case)]
pub fn TextSection() -> (r: TextSection)
    ensures
        r == (TextSection {  }),
{
    TextSection {  }
}

impl PartialEq for TextSection {
    fn eq(&self, other: &Self) -> (r: bool) {
        true
    }
}

impl vstd::std_specs::cmp::PartialEqSpecImpl for TextSection {
    open spec fn obeys_eq_spec() -> bool {
        true
    }

    open spec fn eq_spec(&self, other: &Self) -> bool {
        *self == *other
    }
}

impl Default for TextSection {
    fn default() -> (r: Self)
        ensures
            r == (TextSection {  }),
    {
        TextSection {  }
    }
}

/// An escape sequence in a text literal.
#[derive(Clone, Copy, Debug, Eq)]
pub struct TextEscape {
    /// The character that the escape sequence stands for, if any.
    pub value: Codepoint,
}

/// Constructor.
#[allow(non_snake_case)]
pub fn TextEscape(value: Codepoint) -> (r: TextEscape)
    ensures
        r == (TextEscape { value }),
{
    TextEscape { value }
}

impl PartialEq for TextEscape {
    fn eq(&self, other: &Self) -> (r: bool) {
        self.value == other.value
    }
}

impl vstd::std_specs::cmp::PartialEqSpecImpl for TextEscape {
    open spec fn obeys_eq_spec() -> bool {
        true
    }

    open spec fn eq_spec(&self, other: &Self) -> bool {
        *self == *other
    }
}

impl Default for TextEscape {
    fn default() -> (r: Self)
        ensures
            r.value@ == NONE_BITS,
    {
        TextEscape { value: Codepoint::none() }
    }
}

/// The line break right behind the opening quote of a text block.
#[derive(Clone, Copy, Debug, Eq)]
pub struct TextInitialNewline {

}

/// Constructor.
#[allow(non_snake_case)]
pub fn TextInitialNewline() -> (r: TextInitialNewline)
    ensures
        r == (TextInitialNewline {  }),
{
    TextInitialNewline {  }
}

impl PartialEq for TextInitialNewline {
    fn eq(&self, other: &Self) -> (r: bool) {
        true
    }
}

impl vstd::std_specs::cmp::PartialEqSpecImpl for TextInitialNewline {
    open spec fn obeys_eq_spec() -> bool {
        true
    }

    open spec fn eq_spec(&self, other: &Self) -> bool {
        *self == *other
    }
}

impl Default for TextInitialNewline {
    fn default() -> (r: Self)
        ensures
            r == (TextInitialNewline {  }),
    {
        TextInitialNewline {  }
    }
}

/// A line break inside a text block.
#[derive(Clone, Copy, Debug, Eq)]
pub struct TextNewline {

}

/// Constructor.
#[allow(non_snake_case)]
pub fn TextNewline() -> (r: TextNewline)
    ensures
        r == (TextNewline {  }),
{
    TextNewline {  }
}

impl PartialEq for TextNewline {
    fn eq(&self, other: &Self) -> (r: bool) {
        true
    }
}

impl vstd::std_specs::cmp::PartialEqSpecImpl for TextNewline {
    open spec fn obeys_eq_spec() -> bool {
        true
    }

    open spec fn eq_spec(&self, other: &Self) -> bool {
        *self == *other
    }
}

impl Default for TextNewline {
    fn default() -> (r: Self)
        ensures
            r == (TextNewline {  }),
    {
        TextNewline {  }
    }
}

/// A piece of source that is no token of the language.
#[derive(Clone, Copy, Debug, Eq)]
pub struct Invalid {

}

/// Constructor.
#[allow(non_snake_case)]
pub fn Invalid() -> (r: Invalid)
    ensures
        r == (Invalid {  }),
{
    Invalid {  }
}

impl PartialEq for Invalid {
    fn eq(&self, other: &Self) -> (r: bool) {
        true
    }
}

impl vstd::std_specs::cmp::PartialEqSpecImpl for Invalid {
    open spec fn obeys_eq_spec() -> bool {
        true
    }

    open spec fn eq_spec(&self, other: &Self) -> bool {
        *self == *other
    }
}

impl Default for Invalid {
    fn default() -> (r: Self)
        ensures
            r == (Invalid {  }),
    {
        Invalid {  }
    }
}

/// The kind of a token, without the data that a token of the kind carries.
#[derive(Clone, Copy, Debug, PartialEq, Eq, Structural, Hash)]
pub enum VariantMarker {
    /// A line break.
    Newline,
    /// An opening delimiter, such as `(`.
    OpenSymbol,
    /// A closing delimiter, such as `)`.
    CloseSymbol,
    /// The start of an indented block. It takes no text.
    BlockStart,
    /// The end of an indented block. It takes no text.
    BlockEnd,
    /// The placeholder `_`.
    Wildcard,
    /// The marker that suspends the default arguments of a call.
    SuspendedDefaultArguments,
    /// An identifier.
    Ident,
    /// An operator.
    Operator,
    /// A run of digits.
    Digits,
    /// The prefix of a number that names its base.
    NumberBase,
    /// The keyword `private`.
    Private,
    /// The opening quote of a text literal.
    TextStart,
    /// The closing quote of a text literal.
    TextEnd,
    /// A run of plain characters in a text literal.
    TextSection,
    /// An escape sequence in a text literal.
    TextEscape,
    /// The line break right behind the opening quote of a text block.
    TextInitialNewline,
    /// A line break inside a text block.
    TextNewline,
    /// A piece of source that is no token of the language.
    Invalid,
}

/// Elements that can be found in the source code: a value of any kind.
#[derive(Clone, Copy, Debug, Eq)]
pub enum Variant {
    /// A line break.
    Newline(Newline),
    /// An opening delimiter, such as `(`.
    OpenSymbol(OpenSymbol),
    /// A closing delimiter, such as `)`.
    CloseSymbol(CloseSymbol),
    /// The start of an indented block. It takes no text.
    BlockStart(BlockStart),
    /// The end of an indented block. It takes no text.
    BlockEnd(BlockEnd),
    /// The placeholder `_`.
    Wildcard(Wildcard),
    /// The marker that suspends the default arguments of a call.
    SuspendedDefaultArguments(SuspendedDefaultArguments),
    /// An identifier.
    Ident(Ident),
    /// An operator.
    Operator(Operator),
    /// A run of digits.
    Digits(Digits),
    /// The prefix of a number that names its base.
    NumberBase(NumberBase),
    /// The keyword `private`.
    Private(Private),
    /// The opening quote of a text literal.
    TextStart(TextStart),
    /// The closing quote of a text literal.
    TextEnd(TextEnd),
    /// A run of plain characters in a text literal.
    TextSection(TextSection),
    /// An escape sequence in a text literal.
    TextEscape(TextEscape),
    /// The line break right behind the opening quote of a text block.
    TextInitialNewline(TextInitialNewline),
    /// A line break inside a text block.
    TextNewline(TextNewline),
    /// A piece of source that is no token of the language.
    Invalid(Invalid),
}

impl PartialEq for Variant {
    /// Two values are equal when they are of the same kind and hold the same data.
    fn eq(&self, other: &Self) -> (r: bool) {
        match (self, other) {
            (Variant::Newline(a), Variant::Newline(b)) => a == b,
            (Variant::OpenSymbol(a), Variant::OpenSymbol(b)) => a == b,
            (Variant::CloseSymbol(a), Variant::CloseSymbol(b)) => a == b,
            (Variant::BlockStart(a), Variant::BlockStart(b)) => a == b,
            (Variant::BlockEnd(a), Variant::BlockEnd(b)) => a == b,
            (Variant::Wildcard(a), Variant::Wildcard(b)) => a == b,
            (Variant::SuspendedDefaultArguments(a), Variant::SuspendedDefaultArguments(b)) => a == b,
            (Variant::Ident(a), Variant::Ident(b)) => a == b,
            (Variant::Operator(a), Variant::Operator(b)) => a == b,
            (Variant::Digits(a), Variant::Digits(b)) => a == b,
            (Variant::NumberBase(a), Variant::NumberBase(b)) => a == b,
            (Variant::Private(a), Variant::Private(b)) => a == b,
            (Variant::TextStart(a), Variant::TextStart(b)) => a == b,
            (Variant::TextEnd(a), Variant::TextEnd(b)) => a == b,
            (Variant::TextSection(a), Variant::TextSection(b)) => a == b,
            (Variant::TextEscape(a), Variant::TextEscape(b)) => a == b,
            (Variant::TextInitialNewline(a), Variant::TextInitialNewline(b)) => a == b,
            (Variant::TextNewline(a), Variant::TextNewline(b)) => a == b,
            (Variant::Invalid(a), Variant::Invalid(b)) => a == b,
            _ => false,
        }
    }
}

impl vstd::std_specs::cmp::PartialEqSpecImpl for Variant {
    open spec fn obeys_eq_spec() -> bool {
        true
    }

    open spec fn eq_spec(&self, other: &Self) -> bool {
        *self == *other
    }
}

impl Default for Variant {
    /// The default is a line break.
    fn default() -> (r: Self)
        ensures
            r == Variant::Newline(Newline {  }),
    {
        Variant::Newline(Newline {  })
    }
}

impl Variant {
    /// The kind of the value.
    pub open spec fn kind(&self) -> VariantMarker {
        match self {
            Variant::Newline(_) => VariantMarker::Newline,
            Variant::OpenSymbol(_) => VariantMarker::OpenSymbol,
            Variant::CloseSymbol(_) => VariantMarker::CloseSymbol,
            Variant::BlockStart(_) => VariantMarker::BlockStart,
            Variant::BlockEnd(_) => VariantMarker::BlockEnd,
            Variant::Wildcard(_) => VariantMarker::Wildcard,
            Variant::SuspendedDefaultArguments(_) => VariantMarker::SuspendedDefaultArguments,
            Variant::Ident(_) => VariantMarker::Ident,
            Variant::Operator(_) => VariantMarker::Operator,
            Variant::Digits(_) => VariantMarker::Digits,
            Variant::NumberBase(_) => VariantMarker::NumberBase,
            Variant::Private(_) => VariantMarker::Private,
            Variant::TextStart(_) => VariantMarker::TextStart,
            Variant::TextEnd(_) => VariantMarker::TextEnd,
            Variant::TextSection(_) => VariantMarker::TextSection,
            Variant::TextEscape(_) => VariantMarker::TextEscape,
            Variant::TextInitialNewline(_) => VariantMarker::TextInitialNewline,
            Variant::TextNewline(_) => VariantMarker::TextNewline,
            Variant::Invalid(_) => VariantMarker::Invalid,
        }
    }

    /// Whether a token of the given kind can introduce a macro segment. Those that cannot are
    /// the parts of a text literal that the lexer has already given their meaning, and what is
    /// no token of the language.
    pub open spec fn kind_can_start_macro_segment(kind: VariantMarker) -> bool {
        !(kind is TextEscape || kind is TextSection || kind is TextStart || kind is TextEnd
            || kind is Invalid)
    }

    /// Return the kind of the value.
    #[verifier::when_used_as_spec(kind)]
    pub fn marker(&self) -> (r: VariantMarker)
        ensures
            r == self.kind(),
    {
        match self {
            Variant::Newline(_) => VariantMarker::Newline,
            Variant::OpenSymbol(_) => VariantMarker::OpenSymbol,
            Variant::CloseSymbol(_) => VariantMarker::CloseSymbol,
            Variant::BlockStart(_) => VariantMarker::BlockStart,
            Variant::BlockEnd(_) => VariantMarker::BlockEnd,
            Variant::Wildcard(_) => VariantMarker::Wildcard,
            Variant::SuspendedDefaultArguments(_) => VariantMarker::SuspendedDefaultArguments,
            Variant::Ident(_) => VariantMarker::Ident,
            Variant::Operator(_) => VariantMarker::Operator,
            Variant::Digits(_) => VariantMarker::Digits,
            Variant::NumberBase(_) => VariantMarker::NumberBase,
            Variant::Private(_) => VariantMarker::Private,
            Variant::TextStart(_) => VariantMarker::TextStart,
            Variant::TextEnd(_) => VariantMarker::TextEnd,
            Variant::TextSection(_) => VariantMarker::TextSection,
            Variant::TextEscape(_) => VariantMarker::TextEscape,
            Variant::TextInitialNewline(_) => VariantMarker::TextInitialNewline,
            Variant::TextNewline(_) => VariantMarker::TextNewline,
            Variant::Invalid(_) => VariantMarker::Invalid,
        }
    }

    /// Return whether this token can introduce a macro segment.
    pub fn can_start_macro_segment(&self) -> (r: bool)
        ensures
            r == Self::kind_can_start_macro_segment(self.kind()),
            r == !(*self is TextEscape || *self is TextSection || *self is TextStart
                || *self is TextEnd || *self is Invalid),
    {
        !matches!(
            self,
            // Prevent macro interpretation of symbols that have been lexically contextualized as
            // text escape control characters.
            Variant::TextEscape(_)
            | Variant::TextSection(_)
            | Variant::TextStart(_)
            | Variant::TextEnd(_)
            // Prevent macro interpretation of lexically-inappropriate tokens.
            | Variant::Invalid(_)
        )
    }

    /// Return a value of the kind [`Newline`].
    pub fn newline() -> (r: Self)
        ensures
            r == Variant::Newline(Newline {  }),
    {
        Variant::Newline(Newline {  })
    }

    /// Return a value of the kind [`OpenSymbol`].
    pub fn open_symbol() -> (r: Self)
        ensures
            r == Variant::OpenSymbol(OpenSymbol {  }),
    {
        Variant::OpenSymbol(OpenSymbol {  })
    }

    /// Return a value of the kind [`CloseSymbol`].
    pub fn close_symbol() -> (r: Self)
        ensures
            r == Variant::CloseSymbol(CloseSymbol {  }),
    {
        Variant::CloseSymbol(CloseSymbol {  })
    }

    /// Return a value of the kind [`BlockStart`].
    pub fn block_start() -> (r: Self)
        ensures
            r == Variant::BlockStart(BlockStart {  }),
    {
        Variant::BlockStart(BlockStart {  })
    }

    /// Return a value of the kind [`BlockEnd`].
    pub fn block_end() -> (r: Self)
        ensures
            r == Variant::BlockEnd(BlockEnd {  }),
    {
        Variant::BlockEnd(BlockEnd {  })
    }

    /// Return a value of the kind [`Wildcard`].
    pub fn wildcard(lift_level: u32) -> (r: Self)
        ensures
            r == Variant::Wildcard(Wildcard { lift_level }),
    {
        Variant::Wildcard(Wildcard { lift_level })
    }

    /// Return a value of the kind [`SuspendedDefaultArguments`].
    pub fn suspended_default_arguments() -> (r: Self)
        ensures
            r == Variant::SuspendedDefaultArguments(SuspendedDefaultArguments {  }),
    {
        Variant::SuspendedDefaultArguments(SuspendedDefaultArguments {  })
    }

    /// Return a value of the kind [`Ident`].
    pub fn ident(
        is_free: bool,
        lift_level: u32,
        is_type: bool,
        is_operator_lexically: bool,
        is_default: bool,
    ) -> (r: Self)
        ensures
            r == Variant::Ident(Ident { is_free, lift_level, is_type, is_operator_lexically, is_default }),
    {
        Variant::Ident(Ident { is_free, lift_level, is_type, is_operator_lexically, is_default })
    }

    /// Return a value of the kind [`Operator`].
    pub fn operator(properties: OperatorProperties) -> (r: Self)
        ensures
            r == Variant::Operator(Operator { properties }),
    {
        Variant::Operator(Operator { properties })
    }

    /// Return a value of the kind [`Digits`].
    pub fn digits(base: Option<Base>) -> (r: Self)
        ensures
            r == Variant::Digits(Digits { base }),
    {
        Variant::Digits(Digits { base })
    }

    /// Return a value of the kind [`NumberBase`].
    pub fn number_base() -> (r: Self)
        ensures
            r == Variant::NumberBase(NumberBase {  }),
    {
        Variant::NumberBase(NumberBase {  })
    }

    /// Return a value of the kind [`Private`].
    pub fn private() -> (r: Self)
        ensures
            r == Variant::Private(Private {  }),
    {
        Variant::Private(Private {  })
    }

    /// Return a value of the kind [`TextStart`].
    pub fn text_start() -> (r: Self)
        ensures
            r == Variant::TextStart(TextStart {  }),
    {
        Variant::TextStart(TextStart {  })
    }

    /// Return a value of the kind [`TextEnd`].
    pub fn text_end() -> (r: Self)
        ensures
            r == Variant::TextEnd(TextEnd {  }),
    {
        Variant::TextEnd(TextEnd {  })
    }

    /// Return a value of the kind [`TextSection`].
    pub fn text_section() -> (r: Self)
        ensures
            r == Variant::TextSection(TextSection {  }),
    {
        Variant::TextSection(TextSection {  })
    }

    /// Return a value of the kind [`TextEscape`].
    pub fn text_escape(value: Codepoint) -> (r: Self)
        ensures
            r == Variant::TextEscape(TextEscape { value }),
    {
        Variant::TextEscape(TextEscape { value })
    }

    /// Return a value of the kind [`TextInitialNewline`].
    pub fn text_initial_newline() -> (r: Self)
        ensures
            r == Variant::TextInitialNewline(TextInitialNewline {  }),
    {
        Variant::TextInitialNewline(TextInitialNewline {  })
    }

    /// Return a value of the kind [`TextNewline`].
    pub fn text_newline() -> (r: Self)
        ensures
            r == Variant::TextNewline(TextNewline {  }),
    {
        Variant::TextNewline(TextNewline {  })
    }

    /// Return a value of the kind [`Invalid`].
    pub fn invalid() -> (r: Self)
        ensures
            r == Variant::Invalid(Invalid {  }),
    {
        Variant::Invalid(Invalid {  })
    }
}

} // verus!
