//! The conversions between each kind and the union of all kinds.
//!
//! Every kind converts into [`Variant`] with `From`. [`Variant`] converts back into a kind with
//! `TryFrom`, which fails where the value is of another kind.

use crate::syntax::token::variant::BlockEnd;
use crate::syntax::token::variant::BlockStart;
use crate::syntax::token::variant::CloseSymbol;
use crate::syntax::token::variant::Digits;
use crate::syntax::token::variant::Ident;
use crate::syntax::token::variant::Invalid;
use crate::syntax::token::variant::Newline;
use crate::syntax::token::variant::NumberBase;
use crate::syntax::token::variant::OpenSymbol;
use crate::syntax::token::variant::Operator;
use crate::syntax::token::variant::Private;
use crate::syntax::token::variant::SuspendedDefaultArguments;
use crate::syntax::token::variant::TextEnd;
use crate::syntax::token::variant::TextEscape;
use crate::syntax::token::variant::TextInitialNewline;
use crate::syntax::token::variant::TextNewline;
use crate::syntax::token::variant::TextSection;
use crate::syntax::token::variant::TextStart;
use crate::syntax::token::variant::Wildcard;
use crate::syntax::token::variant::Variant;
use crate::syntax::token::variant::VariantMarker;
use vstd::prelude::*;
use vstd::std_specs::convert::FromSpec;
use vstd::std_specs::convert::TryFromSpec;

verus! {

impl From<Newline> for Variant {
    fn from(value: Newline) -> (r: Self) {
        Variant::Newline(value)
    }
}

impl vstd::std_specs::convert::FromSpecImpl<Newline> for Variant {
    open spec fn obeys_from_spec() -> bool {
        true
    }

    open spec fn from_spec(value: Newline) -> Self {
        Variant::Newline(value)
    }
}

impl TryFrom<Variant> for Newline {
    type Error = ();

    fn try_from(value: Variant) -> (r: Result<Self, ()>) {
        match value {
            Variant::Newline(inner) => Ok(inner),
            _ => Err(()),
        }
    }
}

impl vstd::std_specs::convert::TryFromSpecImpl<Variant> for Newline {
    open spec fn obeys_try_from_spec() -> bool {
        true
    }

    open spec fn try_from_spec(value: Variant) -> Result<Self, ()> {
        match value {
            Variant::Newline(inner) => Ok(inner),
            _ => Err(()),
        }
    }
}

impl From<OpenSymbol> for Variant {
    fn from(value: OpenSymbol) -> (r: Self) {
        Variant::OpenSymbol(value)
    }
}

impl vstd::std_specs::convert::FromSpecImpl<OpenSymbol> for Variant {
    open spec fn obeys_from_spec() -> bool {
        true
    }

    open spec fn from_spec(value: OpenSymbol) -> Self {
        Variant::OpenSymbol(value)
    }
}

impl TryFrom<Variant> for OpenSymbol {
    type Error = ();

    fn try_from(value: Variant) -> (r: Result<Self, ()>) {
        match value {
            Variant::OpenSymbol(inner) => Ok(inner),
            _ => Err(()),
        }
    }
}

impl vstd::std_specs::convert::TryFromSpecImpl<Variant> for OpenSymbol {
    open spec fn obeys_try_from_spec() -> bool {
        true
    }

    open spec fn try_from_spec(value: Variant) -> Result<Self, ()> {
        match value {
            Variant::OpenSymbol(inner) => Ok(inner),
            _ => Err(()),
        }
    }
}

impl From<CloseSymbol> for Variant {
    fn from(value: CloseSymbol) -> (r: Self) {
        Variant::CloseSymbol(value)
    }
}

impl vstd::std_specs::convert::FromSpecImpl<CloseSymbol> for Variant {
    open spec fn obeys_from_spec() -> bool {
        true
    }

    open spec fn from_spec(value: CloseSymbol) -> Self {
        Variant::CloseSymbol(value)
    }
}

impl TryFrom<Variant> for CloseSymbol {
    type Error = ();

    fn try_from(value: Variant) -> (r: Result<Self, ()>) {
        match value {
            Variant::CloseSymbol(inner) => Ok(inner),
            _ => Err(()),
        }
    }
}

impl vstd::std_specs::convert::TryFromSpecImpl<Variant> for CloseSymbol {
    open spec fn obeys_try_from_spec() -> bool {
        true
    }

    open spec fn try_from_spec(value: Variant) -> Result<Self, ()> {
        match value {
            Variant::CloseSymbol(inner) => Ok(inner),
            _ => Err(()),
        }
    }
}

impl From<BlockStart> for Variant {
    fn from(value: BlockStart) -> (r: Self) {
        Variant::BlockStart(value)
    }
}

impl vstd::std_specs::convert::FromSpecImpl<BlockStart> for Variant {
    open spec fn obeys_from_spec() -> bool {
        true
    }

    open spec fn from_spec(value: BlockStart) -> Self {
        Variant::BlockStart(value)
    }
}

impl TryFrom<Variant> for BlockStart {
    type Error = ();

    fn try_from(value: Variant) -> (r: Result<Self, ()>) {
        match value {
            Variant::BlockStart(inner) => Ok(inner),
            _ => Err(()),
        }
    }
}

impl vstd::std_specs::convert::TryFromSpecImpl<Variant> for BlockStart {
    open spec fn obeys_try_from_spec() -> bool {
        true
    }

    open spec fn try_from_spec(value: Variant) -> Result<Self, ()> {
        match value {
            Variant::BlockStart(inner) => Ok(inner),
            _ => Err(()),
        }
    }
}

impl From<BlockEnd> for Variant {
    fn from(value: BlockEnd) -> (r: Self) {
        Variant::BlockEnd(value)
    }
}

impl vstd::std_specs::convert::FromSpecImpl<BlockEnd> for Variant {
    open spec fn obeys_from_spec() -> bool {
        true
    }

    open spec fn from_spec(value: BlockEnd) -> Self {
        Variant::BlockEnd(value)
    }
}

impl TryFrom<Variant> for BlockEnd {
    type Error = ();

    fn try_from(value: Variant) -> (r: Result<Self, ()>) {
        match value {
            Variant::BlockEnd(inner) => Ok(inner),
            _ => Err(()),
        }
    }
}

impl vstd::std_specs::convert::TryFromSpecImpl<Variant> for BlockEnd {
    open spec fn obeys_try_from_spec() -> bool {
        true
    }

    open spec fn try_from_spec(value: Variant) -> Result<Self, ()> {
        match value {
            Variant::BlockEnd(inner) => Ok(inner),
            _ => Err(()),
        }
    }
}

impl From<Wildcard> for Variant {
    fn from(value: Wildcard) -> (r: Self) {
        Variant::Wildcard(value)
    }
}

impl vstd::std_specs::convert::FromSpecImpl<Wildcard> for Variant {
    open spec fn obeys_from_spec() -> bool {
        true
    }

    open spec fn from_spec(value: Wildcard) -> Self {
        Variant::Wildcard(value)
    }
}

impl TryFrom<Variant> for Wildcard {
    type Error = ();

    fn try_from(value: Variant) -> (r: Result<Self, ()>) {
        match value {
            Variant::Wildcard(inner) => Ok(inner),
            _ => Err(()),
        }
    }
}

impl vstd::std_specs::convert::TryFromSpecImpl<Variant> for Wildcard {
    open spec fn obeys_try_from_spec() -> bool {
        true
    }

    open spec fn try_from_spec(value: Variant) -> Result<Self, ()> {
        match value {
            Variant::Wildcard(inner) => Ok(inner),
            _ => Err(()),
        }
    }
}

impl From<SuspendedDefaultArguments> for Variant {
    fn from(value: SuspendedDefaultArguments) -> (r: Self) {
        Variant::SuspendedDefaultArguments(value)
    }
}

impl vstd::std_specs::convert::FromSpecImpl<SuspendedDefaultArguments> for Variant {
    open spec fn obeys_from_spec() -> bool {
        true
    }

    open spec fn from_spec(value: SuspendedDefaultArguments) -> Self {
        Variant::SuspendedDefaultArguments(value)
    }
}

impl TryFrom<Variant> for SuspendedDefaultArguments {
    type Error = ();

    fn try_from(value: Variant) -> (r: Result<Self, ()>) {
        match value {
            Variant::SuspendedDefaultArguments(inner) => Ok(inner),
            _ => Err(()),
        }
    }
}

impl vstd::std_specs::convert::TryFromSpecImpl<Variant> for SuspendedDefaultArguments {
    open spec fn obeys_try_from_spec() -> bool {
        true
    }

    open spec fn try_from_spec(value: Variant) -> Result<Self, ()> {
        match value {
            Variant::SuspendedDefaultArguments(inner) => Ok(inner),
            _ => Err(()),
        }
    }
}

impl From<Ident> for Variant {
    fn from(value: Ident) -> (r: Self) {
        Variant::Ident(value)
    }
}

impl vstd::std_specs::convert::FromSpecImpl<Ident> for Variant {
    open spec fn obeys_from_spec() -> bool {
        true
    }

    open spec fn from_spec(value: Ident) -> Self {
        Variant::Ident(value)
    }
}

impl TryFrom<Variant> for Ident {
    type Error = ();

    fn try_from(value: Variant) -> (r: Result<Self, ()>) {
        match value {
            Variant::Ident(inner) => Ok(inner),
            _ => Err(()),
        }
    }
}

impl vstd::std_specs::convert::TryFromSpecImpl<Variant> for Ident {
    open spec fn obeys_try_from_spec() -> bool {
        true
    }

    open spec fn try_from_spec(value: Variant) -> Result<Self, ()> {
        match value {
            Variant::Ident(inner) => Ok(inner),
            _ => Err(()),
        }
    }
}

impl From<Operator> for Variant {
    fn from(value: Operator) -> (r: Self) {
        Variant::Operator(value)
    }
}

impl vstd::std_specs::convert::FromSpecImpl<Operator> for Variant {
    open spec fn obeys_from_spec() -> bool {
        true
    }

    open spec fn from_spec(value: Operator) -> Self {
        Variant::Operator(value)
    }
}

impl TryFrom<Variant> for Operator {
    type Error = ();

    fn try_from(value: Variant) -> (r: Result<Self, ()>) {
        match value {
            Variant::Operator(inner) => Ok(inner),
            _ => Err(()),
        }
    }
}

impl vstd::std_specs::convert::TryFromSpecImpl<Variant> for Operator {
    open spec fn obeys_try_from_spec() -> bool {
        true
    }

    open spec fn try_from_spec(value: Variant) -> Result<Self, ()> {
        match value {
            Variant::Operator(inner) => Ok(inner),
            _ => Err(()),
        }
    }
}

impl From<Digits> for Variant {
    fn from(value: Digits) -> (r: Self) {
        Variant::Digits(value)
    }
}

impl vstd::std_specs::convert::FromSpecImpl<Digits> for Variant {
    open spec fn obeys_from_spec() -> bool {
        true
    }

    open spec fn from_spec(value: Digits) -> Self {
        Variant::Digits(value)
    }
}

impl TryFrom<Variant> for Digits {
    type Error = ();

    fn try_from(value: Variant) -> (r: Result<Self, ()>) {
        match value {
            Variant::Digits(inner) => Ok(inner),
            _ => Err(()),
        }
    }
}

impl vstd::std_specs::convert::TryFromSpecImpl<Variant> for Digits {
    open spec fn obeys_try_from_spec() -> bool {
        true
    }

    open spec fn try_from_spec(value: Variant) -> Result<Self, ()> {
        match value {
            Variant::Digits(inner) => Ok(inner),
            _ => Err(()),
        }
    }
}

impl From<NumberBase> for Variant {
    fn from(value: NumberBase) -> (r: Self) {
        Variant::NumberBase(value)
    }
}

impl vstd::std_specs::convert::FromSpecImpl<NumberBase> for Variant {
    open spec fn obeys_from_spec() -> bool {
        true
    }

    open spec fn from_spec(value: NumberBase) -> Self {
        Variant::NumberBase(value)
    }
}

impl TryFrom<Variant> for NumberBase {
    type Error = ();

    fn try_from(value: Variant) -> (r: Result<Self, ()>) {
        match value {
            Variant::NumberBase(inner) => Ok(inner),
            _ => Err(()),
        }
    }
}

impl vstd::std_specs::convert::TryFromSpecImpl<Variant> for NumberBase {
    open spec fn obeys_try_from_spec() -> bool {
        true
    }

    open spec fn try_from_spec(value: Variant) -> Result<Self, ()> {
        match value {
            Variant::NumberBase(inner) => Ok(inner),
            _ => Err(()),
        }
    }
}

impl From<Private> for Variant {
    fn from(value: Private) -> (r: Self) {
        Variant::Private(value)
    }
}

impl vstd::std_specs::convert::FromSpecImpl<Private> for Variant {
    open spec fn obeys_from_spec() -> bool {
        true
    }

    open spec fn from_spec(value: Private) -> Self {
        Variant::Private(value)
    }
}

impl TryFrom<Variant> for Private {
    type Error = ();

    fn try_from(value: Variant) -> (r: Result<Self, ()>) {
        match value {
            Variant::Private(inner) => Ok(inner),
            _ => Err(()),
        }
    }
}

impl vstd::std_specs::convert::TryFromSpecImpl<Variant> for Private {
    open spec fn obeys_try_from_spec() -> bool {
        true
    }

    open spec fn try_from_spec(value: Variant) -> Result<Self, ()> {
        match value {
            Variant::Private(inner) => Ok(inner),
            _ => Err(()),
        }
    }
}

impl From<TextStart> for Variant {
    fn from(value: TextStart) -> (r: Self) {
        Variant::TextStart(value)
    }
}

impl vstd::std_specs::convert::FromSpecImpl<TextStart> for Variant {
    open spec fn obeys_from_spec() -> bool {
        true
    }

    open spec fn from_spec(value: TextStart) -> Self {
        Variant::TextStart(value)
    }
}

impl TryFrom<Variant> for TextStart {
    type Error = ();

    fn try_from(value: Variant) -> (r: Result<Self, ()>) {
        match value {
            Variant::TextStart(inner) => Ok(inner),
            _ => Err(()),
        }
    }
}

impl vstd::std_specs::convert::TryFromSpecImpl<Variant> for TextStart {
    open spec fn obeys_try_from_spec() -> bool {
        true
    }

    open spec fn try_from_spec(value: Variant) -> Result<Self, ()> {
        match value {
            Variant::TextStart(inner) => Ok(inner),
            _ => Err(()),
        }
    }
}

impl From<TextEnd> for Variant {
    fn from(value: TextEnd) -> (r: Self) {
        Variant::TextEnd(value)
    }
}

impl vstd::std_specs::convert::FromSpecImpl<TextEnd> for Variant {
    open spec fn obeys_from_spec() -> bool {
        true
    }

    open spec fn from_spec(value: TextEnd) -> Self {
        Variant::TextEnd(value)
    }
}

impl TryFrom<Variant> for TextEnd {
    type Error = ();

    fn try_from(value: Variant) -> (r: Result<Self, ()>) {
        match value {
            Variant::TextEnd(inner) => Ok(inner),
            _ => Err(()),
        }
    }
}

impl vstd::std_specs::convert::TryFromSpecImpl<Variant> for TextEnd {
    open spec fn obeys_try_from_spec() -> bool {
        true
    }

    open spec fn try_from_spec(value: Variant) -> Result<Self, ()> {
        match value {
            Variant::TextEnd(inner) => Ok(inner),
            _ => Err(()),
        }
    }
}

impl From<TextSection> for Variant {
    fn from(value: TextSection) -> (r: Self) {
        Variant::TextSection(value)
    }
}

impl vstd::std_specs::convert::FromSpecImpl<TextSection> for Variant {
    open spec fn obeys_from_spec() -> bool {
        true
    }

    open spec fn from_spec(value: TextSection) -> Self {
        Variant::TextSection(value)
    }
}

impl TryFrom<Variant> for TextSection {
    type Error = ();

    fn try_from(value: Variant) -> (r: Result<Self, ()>) {
        match value {
            Variant::TextSection(inner) => Ok(inner),
            _ => Err(()),
        }
    }
}

impl vstd::std_specs::convert::TryFromSpecImpl<Variant> for TextSection {
    open spec fn obeys_try_from_spec() -> bool {
        true
    }

    open spec fn try_from_spec(value: Variant) -> Result<Self, ()> {
        match value {
            Variant::TextSection(inner) => Ok(inner),
            _ => Err(()),
        }
    }
}

impl From<TextEscape> for Variant {
    fn from(value: TextEscape) -> (r: Self) {
        Variant::TextEscape(value)
    }
}

impl vstd::std_specs::convert::FromSpecImpl<TextEscape> for Variant {
    open spec fn obeys_from_spec() -> bool {
        true
    }

    open spec fn from_spec(value: TextEscape) -> Self {
        Variant::TextEscape(value)
    }
}

impl TryFrom<Variant> for TextEscape {
    type Error = ();

    fn try_from(value: Variant) -> (r: Result<Self, ()>) {
        match value {
            Variant::TextEscape(inner) => Ok(inner),
            _ => Err(()),
        }
    }
}

impl vstd::std_specs::convert::TryFromSpecImpl<Variant> for TextEscape {
    open spec fn obeys_try_from_spec() -> bool {
        true
    }

    open spec fn try_from_spec(value: Variant) -> Result<Self, ()> {
        match value {
            Variant::TextEscape(inner) => Ok(inner),
            _ => Err(()),
        }
    }
}

impl From<TextInitialNewline> for Variant {
    fn from(value: TextInitialNewline) -> (r: Self) {
        Variant::TextInitialNewline(value)
    }
}

impl vstd::std_specs::convert::FromSpecImpl<TextInitialNewline> for Variant {
    open spec fn obeys_from_spec() -> bool {
        true
    }

    open spec fn from_spec(value: TextInitialNewline) -> Self {
        Variant::TextInitialNewline(value)
    }
}

impl TryFrom<Variant> for TextInitialNewline {
    type Error = ();

    fn try_from(value: Variant) -> (r: Result<Self, ()>) {
        match value {
            Variant::TextInitialNewline(inner) => Ok(inner),
            _ => Err(()),
        }
    }
}

impl vstd::std_specs::convert::TryFromSpecImpl<Variant> for TextInitialNewline {
    open spec fn obeys_try_from_spec() -> bool {
        true
    }

    open spec fn try_from_spec(value: Variant) -> Result<Self, ()> {
        match value {
            Variant::TextInitialNewline(inner) => Ok(inner),
            _ => Err(()),
        }
    }
}

impl From<TextNewline> for Variant {
    fn from(value: TextNewline) -> (r: Self) {
        Variant::TextNewline(value)
    }
}

impl vstd::std_specs::convert::FromSpecImpl<TextNewline> for Variant {
    open spec fn obeys_from_spec() -> bool {
        true
    }

    open spec fn from_spec(value: TextNewline) -> Self {
        Variant::TextNewline(value)
    }
}

impl TryFrom<Variant> for TextNewline {
    type Error = ();

    fn try_from(value: Variant) -> (r: Result<Self, ()>) {
        match value {
            Variant::TextNewline(inner) => Ok(inner),
            _ => Err(()),
        }
    }
}

impl vstd::std_specs::convert::TryFromSpecImpl<Variant> for TextNewline {
    open spec fn obeys_try_from_spec() -> bool {
        true
    }

    open spec fn try_from_spec(value: Variant) -> Result<Self, ()> {
        match value {
            Variant::TextNewline(inner) => Ok(inner),
            _ => Err(()),
        }
    }
}

impl From<Invalid> for Variant {
    fn from(value: Invalid) -> (r: Self) {
        Variant::Invalid(value)
    }
}

impl vstd::std_specs::convert::FromSpecImpl<Invalid> for Variant {
    open spec fn obeys_from_spec() -> bool {
        true
    }

    open spec fn from_spec(value: Invalid) -> Self {
        Variant::Invalid(value)
    }
}

impl TryFrom<Variant> for Invalid {
    type Error = ();

    fn try_from(value: Variant) -> (r: Result<Self, ()>) {
        match value {
            Variant::Invalid(inner) => Ok(inner),
            _ => Err(()),
        }
    }
}

impl vstd::std_specs::convert::TryFromSpecImpl<Variant> for Invalid {
    open spec fn obeys_try_from_spec() -> bool {
        true
    }

    open spec fn try_from_spec(value: Variant) -> Result<Self, ()> {
        match value {
            Variant::Invalid(inner) => Ok(inner),
            _ => Err(()),
        }
    }
}

/// The conversion of a kind into the union loses nothing: converting back gives the value that
/// went in. So no two values of a kind convert into the same value of the union.
pub proof fn lemma_conversion_is_lossless()
    ensures
        forall|x: Newline|
            <Newline as TryFromSpec<Variant>>::try_from_spec(
                #[trigger] <Variant as FromSpec<Newline>>::from_spec(x),
            ) == Ok::<Newline, ()>(x),
        forall|x: OpenSymbol|
            <OpenSymbol as TryFromSpec<Variant>>::try_from_spec(
                #[trigger] <Variant as FromSpec<OpenSymbol>>::from_spec(x),
            ) == Ok::<OpenSymbol, ()>(x),
        forall|x: CloseSymbol|
            <CloseSymbol as TryFromSpec<Variant>>::try_from_spec(
                #[trigger] <Variant as FromSpec<CloseSymbol>>::from_spec(x),
            ) == Ok::<CloseSymbol, ()>(x),
        forall|x: BlockStart|
            <BlockStart as TryFromSpec<Variant>>::try_from_spec(
                #[trigger] <Variant as FromSpec<BlockStart>>::from_spec(x),
            ) == Ok::<BlockStart, ()>(x),
        forall|x: BlockEnd|
            <BlockEnd as TryFromSpec<Variant>>::try_from_spec(
                #[trigger] <Variant as FromSpec<BlockEnd>>::from_spec(x),
            ) == Ok::<BlockEnd, ()>(x),
        forall|x: Wildcard|
            <Wildcard as TryFromSpec<Variant>>::try_from_spec(
                #[trigger] <Variant as FromSpec<Wildcard>>::from_spec(x),
            ) == Ok::<Wildcard, ()>(x),
        forall|x: SuspendedDefaultArguments|
            <SuspendedDefaultArguments as TryFromSpec<Variant>>::try_from_spec(
                #[trigger] <Variant as FromSpec<SuspendedDefaultArguments>>::from_spec(x),
            ) == Ok::<SuspendedDefaultArguments, ()>(x),
        forall|x: Ident|
            <Ident as TryFromSpec<Variant>>::try_from_spec(
                #[trigger] <Variant as FromSpec<Ident>>::from_spec(x),
            ) == Ok::<Ident, ()>(x),
        forall|x: Operator|
            <Operator as TryFromSpec<Variant>>::try_from_spec(
                #[trigger] <Variant as FromSpec<Operator>>::from_spec(x),
            ) == Ok::<Operator, ()>(x),
        forall|x: Digits|
            <Digits as TryFromSpec<Variant>>::try_from_spec(
                #[trigger] <Variant as FromSpec<Digits>>::from_spec(x),
            ) == Ok::<Digits, ()>(x),
        forall|x: NumberBase|
            <NumberBase as TryFromSpec<Variant>>::try_from_spec(
                #[trigger] <Variant as FromSpec<NumberBase>>::from_spec(x),
            ) == Ok::<NumberBase, ()>(x),
        forall|x: Private|
            <Private as TryFromSpec<Variant>>::try_from_spec(
                #[trigger] <Variant as FromSpec<Private>>::from_spec(x),
            ) == Ok::<Private, ()>(x),
        forall|x: TextStart|
            <TextStart as TryFromSpec<Variant>>::try_from_spec(
                #[trigger] <Variant as FromSpec<TextStart>>::from_spec(x),
            ) == Ok::<TextStart, ()>(x),
        forall|x: TextEnd|
            <TextEnd as TryFromSpec<Variant>>::try_from_spec(
                #[trigger] <Variant as FromSpec<TextEnd>>::from_spec(x),
            ) == Ok::<TextEnd, ()>(x),
        forall|x: TextSection|
            <TextSection as TryFromSpec<Variant>>::try_from_spec(
                #[trigger] <Variant as FromSpec<TextSection>>::from_spec(x),
            ) == Ok::<TextSection, ()>(x),
        forall|x: TextEscape|
            <TextEscape as TryFromSpec<Variant>>::try_from_spec(
                #[trigger] <Variant as FromSpec<TextEscape>>::from_spec(x),
            ) == Ok::<TextEscape, ()>(x),
        forall|x: TextInitialNewline|
            <TextInitialNewline as TryFromSpec<Variant>>::try_from_spec(
                #[trigger] <Variant as FromSpec<TextInitialNewline>>::from_spec(x),
            ) == Ok::<TextInitialNewline, ()>(x),
        forall|x: TextNewline|
            <TextNewline as TryFromSpec<Variant>>::try_from_spec(
                #[trigger] <Variant as FromSpec<TextNewline>>::from_spec(x),
            ) == Ok::<TextNewline, ()>(x),
        forall|x: Invalid|
            <Invalid as TryFromSpec<Variant>>::try_from_spec(
                #[trigger] <Variant as FromSpec<Invalid>>::from_spec(x),
            ) == Ok::<Invalid, ()>(x),
{
}

/// The conversion of the union into a kind succeeds on the values of that kind, and on no
/// others. Where it succeeds, it gives the value that converts into the one that went in.
pub proof fn lemma_projection_is_partial(value: Variant)
    ensures
        <Newline as TryFromSpec<Variant>>::try_from_spec(value) is Ok <==> value.kind()
            == VariantMarker::Newline,
        <Newline as TryFromSpec<Variant>>::try_from_spec(value) matches Ok(x) ==> <Variant as FromSpec<
            Newline,
        >>::from_spec(x) == value,
        <OpenSymbol as TryFromSpec<Variant>>::try_from_spec(value) is Ok <==> value.kind()
            == VariantMarker::OpenSymbol,
        <OpenSymbol as TryFromSpec<Variant>>::try_from_spec(value) matches Ok(x) ==> <Variant as FromSpec<
            OpenSymbol,
        >>::from_spec(x) == value,
        <CloseSymbol as TryFromSpec<Variant>>::try_from_spec(value) is Ok <==> value.kind()
            == VariantMarker::CloseSymbol,
        <CloseSymbol as TryFromSpec<Variant>>::try_from_spec(value) matches Ok(x) ==> <Variant as FromSpec<
            CloseSymbol,
        >>::from_spec(x) == value,
        <BlockStart as TryFromSpec<Variant>>::try_from_spec(value) is Ok <==> value.kind()
            == VariantMarker::BlockStart,
        <BlockStart as TryFromSpec<Variant>>::try_from_spec(value) matches Ok(x) ==> <Variant as FromSpec<
            BlockStart,
        >>::from_spec(x) == value,
        <BlockEnd as TryFromSpec<Variant>>::try_from_spec(value) is Ok <==> value.kind()
            == VariantMarker::BlockEnd,
        <BlockEnd as TryFromSpec<Variant>>::try_from_spec(value) matches Ok(x) ==> <Variant as FromSpec<
            BlockEnd,
        >>::from_spec(x) == value,
        <Wildcard as TryFromSpec<Variant>>::try_from_spec(value) is Ok <==> value.kind()
            == VariantMarker::Wildcard,
        <Wildcard as TryFromSpec<Variant>>::try_from_spec(value) matches Ok(x) ==> <Variant as FromSpec<
            Wildcard,
        >>::from_spec(x) == value,
        <SuspendedDefaultArguments as TryFromSpec<Variant>>::try_from_spec(value) is Ok <==> value.kind()
            == VariantMarker::SuspendedDefaultArguments,
        <SuspendedDefaultArguments as TryFromSpec<Variant>>::try_from_spec(value) matches Ok(x) ==> <Variant as FromSpec<
            SuspendedDefaultArguments,
        >>::from_spec(x) == value,
        <Ident as TryFromSpec<Variant>>::try_from_spec(value) is Ok <==> value.kind()
            == VariantMarker::Ident,
        <Ident as TryFromSpec<Variant>>::try_from_spec(value) matches Ok(x) ==> <Variant as FromSpec<
            Ident,
        >>::from_spec(x) == value,
        <Operator as TryFromSpec<Variant>>::try_from_spec(value) is Ok <==> value.kind()
            == VariantMarker::Operator,
        <Operator as TryFromSpec<Variant>>::try_from_spec(value) matches Ok(x) ==> <Variant as FromSpec<
            Operator,
        >>::from_spec(x) == value,
        <Digits as TryFromSpec<Variant>>::try_from_spec(value) is Ok <==> value.kind()
            == VariantMarker::Digits,
        <Digits as TryFromSpec<Variant>>::try_from_spec(value) matches Ok(x) ==> <Variant as FromSpec<
            Digits,
        >>::from_spec(x) == value,
        <NumberBase as TryFromSpec<Variant>>::try_from_spec(value) is Ok <==> value.kind()
            == VariantMarker::NumberBase,
        <NumberBase as TryFromSpec<Variant>>::try_from_spec(value) matches Ok(x) ==> <Variant as FromSpec<
            NumberBase,
        >>::from_spec(x) == value,
        <Private as TryFromSpec<Variant>>::try_from_spec(value) is Ok <==> value.kind()
            == VariantMarker::Private,
        <Private as TryFromSpec<Variant>>::try_from_spec(value) matches Ok(x) ==> <Variant as FromSpec<
            Private,
        >>::from_spec(x) == value,
        <TextStart as TryFromSpec<Variant>>::try_from_spec(value) is Ok <==> value.kind()
            == VariantMarker::TextStart,
        <TextStart as TryFromSpec<Variant>>::try_from_spec(value) matches Ok(x) ==> <Variant as FromSpec<
            TextStart,
        >>::from_spec(x) == value,
        <TextEnd as TryFromSpec<Variant>>::try_from_spec(value) is Ok <==> value.kind()
            == VariantMarker::TextEnd,
        <TextEnd as TryFromSpec<Variant>>::try_from_spec(value) matches Ok(x) ==> <Variant as FromSpec<
            TextEnd,
        >>::from_spec(x) == value,
        <TextSection as TryFromSpec<Variant>>::try_from_spec(value) is Ok <==> value.kind()
            == VariantMarker::TextSection,
        <TextSection as TryFromSpec<Variant>>::try_from_spec(value) matches Ok(x) ==> <Variant as FromSpec<
            TextSection,
        >>::from_spec(x) == value,
        <TextEscape as TryFromSpec<Variant>>::try_from_spec(value) is Ok <==> value.kind()
            == VariantMarker::TextEscape,
        <TextEscape as TryFromSpec<Variant>>::try_from_spec(value) matches Ok(x) ==> <Variant as FromSpec<
            TextEscape,
        >>::from_spec(x) == value,
        <TextInitialNewline as TryFromSpec<Variant>>::try_from_spec(value) is Ok <==> value.kind()
            == VariantMarker::TextInitialNewline,
        <TextInitialNewline as TryFromSpec<Variant>>::try_from_spec(value) matches Ok(x) ==> <Variant as FromSpec<
            TextInitialNewline,
        >>::from_spec(x) == value,
        <TextNewline as TryFromSpec<Variant>>::try_from_spec(value) is Ok <==> value.kind()
            == VariantMarker::TextNewline,
        <TextNewline as TryFromSpec<Variant>>::try_from_spec(value) matches Ok(x) ==> <Variant as FromSpec<
            TextNewline,
        >>::from_spec(x) == value,
        <Invalid as TryFromSpec<Variant>>::try_from_spec(value) is Ok <==> value.kind()
            == VariantMarker::Invalid,
        <Invalid as TryFromSpec<Variant>>::try_from_spec(value) matches Ok(x) ==> <Variant as FromSpec<
            Invalid,
        >>::from_spec(x) == value,
{
}

} // verus!
