//! The token type of every kind, with a function that builds it, and its conversion into the
//! token type of any kind.

use crate::source::code::Code;
use crate::source::span::Offset;
use crate::syntax::token::codepoint::Codepoint;
use crate::syntax::token::properties::OperatorProperties;
use crate::syntax::token::variant;
use crate::syntax::token::variant::Base;
use crate::syntax::token::variant::Variant;
use crate::syntax::token::Token;
use vstd::prelude::*;

verus! {

/// Token variant alias.
pub type Newline<'s> = Token<'s, variant::Newline>;

/// Constructor.
pub fn newline<'s>(
    left_offset: Offset<'s>,
    code: Code<'s>,
) -> (r: Newline<'s>)
    ensures
        r.left_offset == left_offset,
        r.code == code,
        r.variant == (variant::Newline {  }),
{
    Token(left_offset, code, variant::Newline())
}

impl<'s> From<Token<'s, variant::Newline>> for Token<'s, Variant> {
    fn from(token: Token<'s, variant::Newline>) -> (r: Self) {
        token.map_variant(Variant::from)
    }
}

impl<'s> vstd::std_specs::convert::FromSpecImpl<Token<'s, variant::Newline>> for Token<'s, Variant> {
    open spec fn obeys_from_spec() -> bool {
        true
    }

    open spec fn from_spec(token: Token<'s, variant::Newline>) -> Self {
        Token {
            left_offset: token.left_offset,
            code: token.code,
            variant: Variant::Newline(token.variant),
        }
    }
}

/// Token variant alias.
pub type OpenSymbol<'s> = Token<'s, variant::OpenSymbol>;

/// Constructor.
pub fn open_symbol<'s>(
    left_offset: Offset<'s>,
    code: Code<'s>,
) -> (r: OpenSymbol<'s>)
    ensures
        r.left_offset == left_offset,
        r.code == code,
        r.variant == (variant::OpenSymbol {  }),
{
    Token(left_offset, code, variant::OpenSymbol())
}

impl<'s> From<Token<'s, variant::OpenSymbol>> for Token<'s, Variant> {
    fn from(token: Token<'s, variant::OpenSymbol>) -> (r: Self) {
        token.map_variant(Variant::from)
    }
}

impl<'s> vstd::std_specs::convert::FromSpecImpl<Token<'s, variant::OpenSymbol>> for Token<'s, Variant> {
    open spec fn obeys_from_spec() -> bool {
        true
    }

    open spec fn from_spec(token: Token<'s, variant::OpenSymbol>) -> Self {
        Token {
            left_offset: token.left_offset,
            code: token.code,
            variant: Variant::OpenSymbol(token.variant),
        }
    }
}

/// Token variant alias.
pub type CloseSymbol<'s> = Token<'s, variant::CloseSymbol>;

/// Constructor.
pub fn close_symbol<'s>(
    left_offset: Offset<'s>,
    code: Code<'s>,
) -> (r: CloseSymbol<'s>)
    ensures
        r.left_offset == left_offset,
        r.code == code,
        r.variant == (variant::CloseSymbol {  }),
{
    Token(left_offset, code, variant::CloseSymbol())
}

impl<'s> From<Token<'s, variant::CloseSymbol>> for Token<'s, Variant> {
    fn from(token: Token<'s, variant::CloseSymbol>) -> (r: Self) {
        token.map_variant(Variant::from)
    }
}

impl<'s> vstd::std_specs::convert::FromSpecImpl<Token<'s, variant::CloseSymbol>> for Token<'s, Variant> {
    open spec fn obeys_from_spec() -> bool {
        true
    }

    open spec fn from_spec(token: Token<'s, variant::CloseSymbol>) -> Self {
        Token {
            left_offset: token.left_offset,
            code: token.code,
            variant: Variant::CloseSymbol(token.variant),
        }
    }
}

/// Token variant alias.
pub type BlockStart<'s> = Token<'s, variant::BlockStart>;

/// Constructor.
pub fn block_start<'s>(
    left_offset: Offset<'s>,
    code: Code<'s>,
) -> (r: BlockStart<'s>)
    ensures
        r.left_offset == left_offset,
        r.code == code,
        r.variant == (variant::BlockStart {  }),
{
    Token(left_offset, code, variant::BlockStart())
}

impl<'s> From<Token<'s, variant::BlockStart>> for Token<'s, Variant> {
    fn from(token: Token<'s, variant::BlockStart>) -> (r: Self) {
        token.map_variant(Variant::from)
    }
}

impl<'s> vstd::std_specs::convert::FromSpecImpl<Token<'s, variant::BlockStart>> for Token<'s, Variant> {
    open spec fn obeys_from_spec() -> bool {
        true
    }

    open spec fn from_spec(token: Token<'s, variant::BlockStart>) -> Self {
        Token {
            left_offset: token.left_offset,
            code: token.code,
            variant: Variant::BlockStart(token.variant),
        }
    }
}

/// Token variant alias.
pub type BlockEnd<'s> = Token<'s, variant::BlockEnd>;

/// Constructor.
pub fn block_end<'s>(
    left_offset: Offset<'s>,
    code: Code<'s>,
) -> (r: BlockEnd<'s>)
    ensures
        r.left_offset == left_offset,
        r.code == code,
        r.variant == (variant::BlockEnd {  }),
{
    Token(left_offset, code, variant::BlockEnd())
}

impl<'s> From<Token<'s, variant::BlockEnd>> for Token<'s, Variant> {
    fn from(token: Token<'s, variant::BlockEnd>) -> (r: Self) {
        token.map_variant(Variant::from)
    }
}

impl<'s> vstd::std_specs::convert::FromSpecImpl<Token<'s, variant::BlockEnd>> for Token<'s, Variant> {
    open spec fn obeys_from_spec() -> bool {
        true
    }

    open spec fn from_spec(token: Token<'s, variant::BlockEnd>) -> Self {
        Token {
            left_offset: token.left_offset,
            code: token.code,
            variant: Variant::BlockEnd(token.variant),
        }
    }
}

/// Token variant alias.
pub type Wildcard<'s> = Token<'s, variant::Wildcard>;

/// Constructor.
pub fn wildcard<'s>(
    left_offset: Offset<'s>,
    code: Code<'s>,
    lift_level: u32,
) -> (r: Wildcard<'s>)
    ensures
        r.left_offset == left_offset,
        r.code == code,
        r.variant == (variant::Wildcard { lift_level }),
{
    Token(left_offset, code, variant::Wildcard(lift_level))
}

impl<'s> From<Token<'s, variant::Wildcard>> for Token<'s, Variant> {
    fn from(token: Token<'s, variant::Wildcard>) -> (r: Self) {
        token.map_variant(Variant::from)
    }
}

impl<'s> vstd::std_specs::convert::FromSpecImpl<Token<'s, variant::Wildcard>> for Token<'s, Variant> {
    open spec fn obeys_from_spec() -> bool {
        true
    }

    open spec fn from_spec(token: Token<'s, variant::Wildcard>) -> Self {
        Token {
            left_offset: token.left_offset,
            code: token.code,
            variant: Variant::Wildcard(token.variant),
        }
    }
}

/// Token variant alias.
pub type SuspendedDefaultArguments<'s> = Token<'s, variant::SuspendedDefaultArguments>;

/// Constructor.
pub fn suspended_default_arguments<'s>(
    left_offset: Offset<'s>,
    code: Code<'s>,
) -> (r: SuspendedDefaultArguments<'s>)
    ensures
        r.left_offset == left_offset,
        r.code == code,
        r.variant == (variant::SuspendedDefaultArguments {  }),
{
    Token(left_offset, code, variant::SuspendedDefaultArguments())
}

impl<'s> From<Token<'s, variant::SuspendedDefaultArguments>> for Token<'s, Variant> {
    fn from(token: Token<'s, variant::SuspendedDefaultArguments>) -> (r: Self) {
        token.map_variant(Variant::from)
    }
}

impl<'s> vstd::std_specs::convert::FromSpecImpl<Token<'s, variant::SuspendedDefaultArguments>> for Token<'s, Variant> {
    open spec fn obeys_from_spec() -> bool {
        true
    }

    open spec fn from_spec(token: Token<'s, variant::SuspendedDefaultArguments>) -> Self {
        Token {
            left_offset: token.left_offset,
            code: token.code,
            variant: Variant::SuspendedDefaultArguments(token.variant),
        }
    }
}

/// Token variant alias.
pub type Ident<'s> = Token<'s, variant::Ident>;

/// Constructor.
pub fn ident<'s>(
    left_offset: Offset<'s>,
    code: Code<'s>,
    is_free: bool,
    lift_level: u32,
    is_type: bool,
    is_operator_lexically: bool,
    is_default: bool,
) -> (r: Ident<'s>)
    ensures
        r.left_offset == left_offset,
        r.code == code,
        r.variant == (variant::Ident { is_free, lift_level, is_type, is_operator_lexically, is_default }),
{
    Token(left_offset, code, variant::Ident(is_free, lift_level, is_type, is_operator_lexically, is_default))
}

impl<'s> From<Token<'s, variant::Ident>> for Token<'s, Variant> {
    fn from(token: Token<'s, variant::Ident>) -> (r: Self) {
        token.map_variant(Variant::from)
    }
}

impl<'s> vstd::std_specs::convert::FromSpecImpl<Token<'s, variant::Ident>> for Token<'s, Variant> {
    open spec fn obeys_from_spec() -> bool {
        true
    }

    open spec fn from_spec(token: Token<'s, variant::Ident>) -> Self {
        Token {
            left_offset: token.left_offset,
            code: token.code,
            variant: Variant::Ident(token.variant),
        }
    }
}

/// Token variant alias.
pub type Operator<'s> = Token<'s, variant::Operator>;

/// Constructor.
pub fn operator<'s>(
    left_offset: Offset<'s>,
    code: Code<'s>,
    properties: OperatorProperties,
) -> (r: Operator<'s>)
    ensures
        r.left_offset == left_offset,
        r.code == code,
        r.variant == (variant::Operator { properties }),
{
    Token(left_offset, code, variant::Operator(properties))
}

impl<'s> From<Token<'s, variant::Operator>> for Token<'s, Variant> {
    fn from(token: Token<'s, variant::Operator>) -> (r: Self) {
        token.map_variant(Variant::from)
    }
}

impl<'s> vstd::std_specs::convert::FromSpecImpl<Token<'s, variant::Operator>> for Token<'s, Variant> {
    open spec fn obeys_from_spec() -> bool {
        true
    }

    open spec fn from_spec(token: Token<'s, variant::Operator>) -> Self {
        Token {
            left_offset: token.left_offset,
            code: token.code,
            variant: Variant::Operator(token.variant),
        }
    }
}

/// Token variant alias.
pub type Digits<'s> = Token<'s, variant::Digits>;

/// Constructor.
pub fn digits<'s>(
    left_offset: Offset<'s>,
    code: Code<'s>,
    base: Option<Base>,
) -> (r: Digits<'s>)
    ensures
        r.left_offset == left_offset,
        r.code == code,
        r.variant == (variant::Digits { base }),
{
    Token(left_offset, code, variant::Digits(base))
}

impl<'s> From<Token<'s, variant::Digits>> for Token<'s, Variant> {
    fn from(token: Token<'s, variant::Digits>) -> (r: Self) {
        token.map_variant(Variant::from)
    }
}

impl<'s> vstd::std_specs::convert::FromSpecImpl<Token<'s, variant::Digits>> for Token<'s, Variant> {
    open spec fn obeys_from_spec() -> bool {
        true
    }

    open spec fn from_spec(token: Token<'s, variant::Digits>) -> Self {
        Token {
            left_offset: token.left_offset,
            code: token.code,
            variant: Variant::Digits(token.variant),
        }
    }
}

/// Token variant alias.
pub type NumberBase<'s> = Token<'s, variant::NumberBase>;

/// Constructor.
pub fn number_base<'s>(
    left_offset: Offset<'s>,
    code: Code<'s>,
) -> (r: NumberBase<'s>)
    ensures
        r.left_offset == left_offset,
        r.code == code,
        r.variant == (variant::NumberBase {  }),
{
    Token(left_offset, code, variant::NumberBase())
}

impl<'s> From<Token<'s, variant::NumberBase>> for Token<'s, Variant> {
    fn from(token: Token<'s, variant::NumberBase>) -> (r: Self) {
        token.map_variant(Variant::from)
    }
}

impl<'s> vstd::std_specs::convert::FromSpecImpl<Token<'s, variant::NumberBase>> for Token<'s, Variant> {
    open spec fn obeys_from_spec() -> bool {
        true
    }

    open spec fn from_spec(token: Token<'s, variant::NumberBase>) -> Self {
        Token {
            left_offset: token.left_offset,
            code: token.code,
            variant: Variant::NumberBase(token.variant),
        }
    }
}

/// Token variant alias.
pub type Private<'s> = Token<'s, variant::Private>;

/// Constructor.
pub fn private<'s>(
    left_offset: Offset<'s>,
    code: Code<'s>,
) -> (r: Private<'s>)
    ensures
        r.left_offset == left_offset,
        r.code == code,
        r.variant == (variant::Private {  }),
{
    Token(left_offset, code, variant::Private())
}

impl<'s> From<Token<'s, variant::Private>> for Token<'s, Variant> {
    fn from(token: Token<'s, variant::Private>) -> (r: Self) {
        token.map_variant(Variant::from)
    }
}

impl<'s> vstd::std_specs::convert::FromSpecImpl<Token<'s, variant::Private>> for Token<'s, Variant> {
    open spec fn obeys_from_spec() -> bool {
        true
    }

    open spec fn from_spec(token: Token<'s, variant::Private>) -> Self {
        Token {
            left_offset: token.left_offset,
            code: token.code,
            variant: Variant::Private(token.variant),
        }
    }
}

/// Token variant alias.
pub type TextStart<'s> = Token<'s, variant::TextStart>;

/// Constructor.
pub fn text_start<'s>(
    left_offset: Offset<'s>,
    code: Code<'s>,
) -> (r: TextStart<'s>)
    ensures
        r.left_offset == left_offset,
        r.code == code,
        r.variant == (variant::TextStart {  }),
{
    Token(left_offset, code, variant::TextStart())
}

impl<'s> From<Token<'s, variant::TextStart>> for Token<'s, Variant> {
    fn from(token: Token<'s, variant::TextStart>) -> (r: Self) {
        token.map_variant(Variant::from)
    }
}

impl<'s> vstd::std_specs::convert::FromSpecImpl<Token<'s, variant::TextStart>> for Token<'s, Variant> {
    open spec fn obeys_from_spec() -> bool {
        true
    }

    open spec fn from_spec(token: Token<'s, variant::TextStart>) -> Self {
        Token {
            left_offset: token.left_offset,
            code: token.code,
            variant: Variant::TextStart(token.variant),
        }
    }
}

/// Token variant alias.
pub type TextEnd<'s> = Token<'s, variant::TextEnd>;

/// Constructor.
pub fn text_end<'s>(
    left_offset: Offset<'s>,
    code: Code<'s>,
) -> (r: TextEnd<'s>)
    ensures
        r.left_offset == left_offset,
        r.code == code,
        r.variant == (variant::TextEnd {  }),
{
    Token(left_offset, code, variant::TextEnd())
}

impl<'s> From<Token<'s, variant::TextEnd>> for Token<'s, Variant> {
    fn from(token: Token<'s, variant::TextEnd>) -> (r: Self) {
        token.map_variant(Variant::from)
    }
}

impl<'s> vstd::std_specs::convert::FromSpecImpl<Token<'s, variant::TextEnd>> for Token<'s, Variant> {
    open spec fn obeys_from_spec() -> bool {
        true
    }

    open spec fn from_spec(token: Token<'s, variant::TextEnd>) -> Self {
        Token {
            left_offset: token.left_offset,
            code: token.code,
            variant: Variant::TextEnd(token.variant),
        }
    }
}

/// Token variant alias.
pub type TextSection<'s> = Token<'s, variant::TextSection>;

/// Constructor.
pub fn text_section<'s>(
    left_offset: Offset<'s>,
    code: Code<'s>,
) -> (r: TextSection<'s>)
    ensures
        r.left_offset == left_offset,
        r.code == code,
        r.variant == (variant::TextSection {  }),
{
    Token(left_offset, code, variant::TextSection())
}

impl<'s> From<Token<'s, variant::TextSection>> for Token<'s, Variant> {
    fn from(token: Token<'s, variant::TextSection>) -> (r: Self) {
        token.map_variant(Variant::from)
    }
}

impl<'s> vstd::std_specs::convert::FromSpecImpl<Token<'s, variant::TextSection>> for Token<'s, Variant> {
    open spec fn obeys_from_spec() -> bool {
        true
    }

    open spec fn from_spec(token: Token<'s, variant::TextSection>) -> Self {
        Token {
            left_offset: token.left_offset,
            code: token.code,
            variant: Variant::TextSection(token.variant),
        }
    }
}

/// Token variant alias.
pub type TextEscape<'s> = Token<'s, variant::TextEscape>;

/// Constructor.
pub fn text_escape<'s>(
    left_offset: Offset<'s>,
    code: Code<'s>,
    value: Codepoint,
) -> (r: TextEscape<'s>)
    ensures
        r.left_offset == left_offset,
        r.code == code,
        r.variant == (variant::TextEscape { value }),
{
    Token(left_offset, code, variant::TextEscape(value))
}

impl<'s> From<Token<'s, variant::TextEscape>> for Token<'s, Variant> {
    fn from(token: Token<'s, variant::TextEscape>) -> (r: Self) {
        token.map_variant(Variant::from)
    }
}

impl<'s> vstd::std_specs::convert::FromSpecImpl<Token<'s, variant::TextEscape>> for Token<'s, Variant> {
    open spec fn obeys_from_spec() -> bool {
        true
    }

    open spec fn from_spec(token: Token<'s, variant::TextEscape>) -> Self {
        Token {
            left_offset: token.left_offset,
            code: token.code,
            variant: Variant::TextEscape(token.variant),
        }
    }
}

/// Token variant alias.
pub type TextInitialNewline<'s> = Token<'s, variant::TextInitialNewline>;

/// Constructor.
pub fn text_initial_newline<'s>(
    left_offset: Offset<'s>,
    code: Code<'s>,
) -> (r: TextInitialNewline<'s>)
    ensures
        r.left_offset == left_offset,
        r.code == code,
        r.variant == (variant::TextInitialNewline {  }),
{
    Token(left_offset, code, variant::TextInitialNewline())
}

impl<'s> From<Token<'s, variant::TextInitialNewline>> for Token<'s, Variant> {
    fn from(token: Token<'s, variant::TextInitialNewline>) -> (r: Self) {
        token.map_variant(Variant::from)
    }
}

impl<'s> vstd::std_specs::convert::FromSpecImpl<Token<'s, variant::TextInitialNewline>> for Token<'s, Variant> {
    open spec fn obeys_from_spec() -> bool {
        true
    }

    open spec fn from_spec(token: Token<'s, variant::TextInitialNewline>) -> Self {
        Token {
            left_offset: token.left_offset,
            code: token.code,
            variant: Variant::TextInitialNewline(token.variant),
        }
    }
}

/// Token variant alias.
pub type TextNewline<'s> = Token<'s, variant::TextNewline>;

/// Constructor.
pub fn text_newline<'s>(
    left_offset: Offset<'s>,
    code: Code<'s>,
) -> (r: TextNewline<'s>)
    ensures
        r.left_offset == left_offset,
        r.code == code,
        r.variant == (variant::TextNewline {  }),
{
    Token(left_offset, code, variant::TextNewline())
}

impl<'s> From<Token<'s, variant::TextNewline>> for Token<'s, Variant> {
    fn from(token: Token<'s, variant::TextNewline>) -> (r: Self) {
        token.map_variant(Variant::from)
    }
}

impl<'s> vstd::std_specs::convert::FromSpecImpl<Token<'s, variant::TextNewline>> for Token<'s, Variant> {
    open spec fn obeys_from_spec() -> bool {
        true
    }

    open spec fn from_spec(token: Token<'s, variant::TextNewline>) -> Self {
        Token {
            left_offset: token.left_offset,
            code: token.code,
            variant: Variant::TextNewline(token.variant),
        }
    }
}

/// Token variant alias.
pub type Invalid<'s> = Token<'s, variant::Invalid>;

/// Constructor.
pub fn invalid<'s>(
    left_offset: Offset<'s>,
    code: Code<'s>,
) -> (r: Invalid<'s>)
    ensures
        r.left_offset == left_offset,
        r.code == code,
        r.variant == (variant::Invalid {  }),
{
    Token(left_offset, code, variant::Invalid())
}

impl<'s> From<Token<'s, variant::Invalid>> for Token<'s, Variant> {
    fn from(token: Token<'s, variant::Invalid>) -> (r: Self) {
        token.map_variant(Variant::from)
    }
}

impl<'s> vstd::std_specs::convert::FromSpecImpl<Token<'s, variant::Invalid>> for Token<'s, Variant> {
    open spec fn obeys_from_spec() -> bool {
        true
    }

    open spec fn from_spec(token: Token<'s, variant::Invalid>) -> Self {
        Token {
            left_offset: token.left_offset,
            code: token.code,
            variant: Variant::Invalid(token.variant),
        }
    }
}

} // verus!
