//! A lexical token is a piece of source text with an assigned meaning. Each token remembers the
//! code it was read from and can be printed back. It also holds the offset to the token in
//! front of it: the whitespace between the two.
//!
//! [`Token`] is generic in the data that says what the token means. That data is either of one
//! kind, such as [`variant::Ident`], or of any kind: [`Variant`], which is the default. For every
//! kind there is an alias of the token type, such as [`Ident`], and a function that builds such a
//! token, such as [`ident`]. A token of one kind converts into a token of any kind with `From`.

pub mod codepoint;
pub mod kinds;
pub mod precedence;
pub mod properties;
pub mod render;
pub mod variant;

pub use codepoint::Codepoint;
pub use kinds::newline;
pub use kinds::Newline;
pub use kinds::open_symbol;
pub use kinds::OpenSymbol;
pub use kinds::close_symbol;
pub use kinds::CloseSymbol;
pub use kinds::block_start;
pub use kinds::BlockStart;
pub use kinds::block_end;
pub use kinds::BlockEnd;
pub use kinds::wildcard;
pub use kinds::Wildcard;
pub use kinds::suspended_default_arguments;
pub use kinds::SuspendedDefaultArguments;
pub use kinds::ident;
pub use kinds::Ident;
pub use kinds::operator;
pub use kinds::Operator;
pub use kinds::digits;
pub use kinds::Digits;
pub use kinds::number_base;
pub use kinds::NumberBase;
pub use kinds::private;
pub use kinds::Private;
pub use kinds::text_start;
pub use kinds::TextStart;
pub use kinds::text_end;
pub use kinds::TextEnd;
pub use kinds::text_section;
pub use kinds::TextSection;
pub use kinds::text_escape;
pub use kinds::TextEscape;
pub use kinds::text_initial_newline;
pub use kinds::TextInitialNewline;
pub use kinds::text_newline;
pub use kinds::TextNewline;
pub use kinds::invalid;
pub use kinds::Invalid;
pub use precedence::Precedence;
pub use properties::Associativity;
pub use properties::OperatorProperties;
pub use properties::OperatorPropertiesView;
pub use variant::Base;
pub use variant::Variant;
pub use variant::VariantMarker;

use crate::source::code::Code;
use crate::source::code::CodeView;
use crate::source::code::Length;
use crate::source::code::Location;
use crate::source::code::lemma_split_parts;
use crate::source::span;
use crate::source::span::FirstChildTrim;
use crate::source::span::Offset;
use crate::source::span::OffsetView;
use crate::source::span::Span;
use vstd::pervasive::cloned;
use vstd::prelude::*;
use vstd::std_specs::cmp::PartialEqSpec;
use vstd::std_specs::convert::IntoSpec;

verus! {

// =============
// === Token ===
// =============

/// What a [`Token`] stands for: the offset in front of it, its code, and what it means.
pub struct TokenView<T> {
    /// The offset to the token in front.
    pub left_offset: OffsetView,
    /// The code of the token.
    pub code: CodeView,
    /// What the token means.
    pub variant: T,
}

impl<T> TokenView<T> {
    /// The text that the token takes in the source: that of its offset, then its code.
    pub open spec fn rendered(self) -> Seq<char> {
        self.left_offset.code.text + self.code.text
    }

    /// The same token with another meaning.
    pub open spec fn with_variant<S>(self, variant: S) -> TokenView<S> {
        TokenView { left_offset: self.left_offset, code: self.code, variant }
    }

    /// The same token without its position in the source.
    pub open spec fn without_offsets(self) -> TokenView<T> {
        TokenView {
            left_offset: self.left_offset.without_offset(),
            code: self.code.without_location(),
            variant: self.variant,
        }
    }

    /// Whether the token's code can be cut in two at byte offset `n`.
    pub open spec fn can_split_at(self, n: int) -> bool {
        self.code.can_split_at(n)
    }

    /// The first part of the token cut at byte offset `n` of its code: the offset, and the code
    /// in front of the cut.
    pub open spec fn left_of(self, n: int) -> TokenView<()> {
        TokenView { left_offset: self.left_offset, code: self.code.left_of(n), variant: () }
    }

    /// The second part of the token cut at byte offset `n` of its code: an empty offset at the
    /// cut, and the code behind the cut.
    pub open spec fn right_of(self, n: int) -> TokenView<()> {
        TokenView {
            left_offset: OffsetView::empty(self.code.right_of(n).start),
            code: self.code.right_of(n),
            variant: (),
        }
    }

    /// What is left of the token when its offset was taken away to be the offset of a parent:
    /// the code, behind an empty offset at the place where the offset that was taken ended.
    pub open spec fn trimmed(self) -> TokenView<T> {
        TokenView {
            left_offset: OffsetView::empty(Location { utf8: self.left_offset.code.end() as usize }),
            code: self.code,
            variant: self.variant,
        }
    }
}

/// The lexical token definition. See the module docs to learn more about its usage scenarios.
#[derive(Debug)]
pub struct Token<'s, T = Variant> {
    /// The offset to the token in front.
    pub left_offset: Offset<'s>,
    /// The code of the token.
    pub code: Code<'s>,
    /// What the token means.
    pub variant: T,
}

/// Constructor.
#[allow(non_snake_case)]
pub fn Token<'s, T>(left_offset: Offset<'s>, code: Code<'s>, variant: T) -> (r: Token<'s, T>)
    ensures
        r.left_offset == left_offset,
        r.code == code,
        r.variant == variant,
{
    Token { variant, left_offset, code }
}

impl<'s, T: Clone> Clone for Token<'s, T> {
    /// The clone has the same offset and code, and a clone of the variant.
    fn clone(&self) -> (r: Self)
        ensures
            r.left_offset == self.left_offset,
            r.code == self.code,
            cloned(self.variant, r.variant),
    {
        Token { left_offset: self.left_offset, code: self.code, variant: self.variant.clone() }
    }
}

impl<'s, T> View for Token<'s, T> {
    type V = TokenView<T>;

    open spec fn view(&self) -> TokenView<T> {
        TokenView { left_offset: self.left_offset@, code: self.code@, variant: self.variant }
    }
}

impl<'s, T> Token<'s, T> {
    /// Split the token at the provided byte offset. The offset is counted from the [`code`] start
    /// position, which does not include the [`left_offset`]. It means that `split_at(Length(0))`
    /// will split the token into left offset only and a left-trimmed token.
    ///
    /// The offset must lie on a character boundary of the code. Both parts put together are the
    /// token's text again.
    pub fn split_at(self, split: Length) -> (r: (Token<'s, ()>, Token<'s, ()>))
        requires
            self@.can_split_at(split.utf8 as int),
        ensures
            r.0@ == self@.left_of(split.utf8 as int),
            r.1@ == self@.right_of(split.utf8 as int),
            r.0@.rendered() + r.1@.rendered() == self@.rendered(),
            split.utf8 == 0 ==> r.0@.code.text.len() == 0 && r.0@.rendered()
                == self@.left_offset.code.text,
    {
        proof {
            lemma_split_renders_the_same(self@, split.utf8 as int);
        }
        let left_lexeme_offset = self.left_offset;
        let (left_code, right_code) = self.code.split_at(split);
        let right_lexeme_offset = Offset::empty(right_code.start());
        let left = Token(left_lexeme_offset, left_code, ());
        let right = Token(right_lexeme_offset, right_code, ());
        (left, right)
    }

    /// Modify the associated variant of this token with the provided function.
    pub fn map_variant<S, F: FnOnce(T) -> S>(self, f: F) -> (r: Token<'s, S>)
        requires
            f.requires((self.variant,)),
        ensures
            r.left_offset == self.left_offset,
            r.code == self.code,
            f.ensures((self.variant,), r.variant),
    {
        Token(self.left_offset, self.code, f(self.variant))
    }

    /// Replace the associated variant in this token.
    pub fn with_variant<S>(self, data: S) -> (r: Token<'s, S>)
        ensures
            r.left_offset == self.left_offset,
            r.code == self.code,
            r.variant == data,
            r@ == self@.with_variant(data),
    {
        self.map_variant(|_old: T| -> (new: S) ensures new == data { data })
    }

    /// Span of this token.
    pub fn span<'a>(&'a self) -> (r: span::Ref<'s, 'a>)
        ensures
            *r.left_offset == self.left_offset,
            r.code_length.utf8 == self@.code.len(),
    {
        let code_length = self.code.length();
        span::Ref { left_offset: &self.left_offset, code_length }
    }

}

impl<'s, V: Clone> Token<'s, V> {
    /// Return this value with all source references stripped of positions. This supports
    /// comparing tokens irrespective of their locations in the source.
    pub fn without_offsets(&self) -> (r: Self)
        ensures
            r@.left_offset == self@.left_offset.without_offset(),
            r@.code == self@.code.without_location(),
            cloned(self.variant, r.variant),
            r.variant == self.variant ==> r@ == self@.without_offsets(),
            r@.without_offsets() == r@,
    {
        Self {
            left_offset: self.left_offset.without_offset(),
            code: self.code.without_location(),
            variant: self.variant.clone(),
        }
    }
}

impl<'s, T> FirstChildTrim<'s> for Token<'s, T> {
    /// Take the offset out of the token, together with the length of the code, to be the span
    /// of a parent of which the token is the first child. The token keeps its code, behind an
    /// empty offset.
    fn trim_as_first_child(&mut self) -> (r: Span<'s>)
        ensures
            r.left_offset@ == old(self)@.left_offset,
            r.code_length.utf8 == old(self)@.code.len(),
            final(self)@ == old(self)@.trimmed(),
    {
        let left_offset = self.left_offset.take_as_prefix();
        let code_length = self.code.length();
        Span { left_offset, code_length }
    }
}

impl<'s, T: PartialEq> PartialEq for Token<'s, T> {
    /// Two tokens are equal when their offsets, their codes and their variants are.
    fn eq(&self, other: &Self) -> (r: bool) {
        self.left_offset == other.left_offset && self.code == other.code && self.variant
            == other.variant
    }
}

impl<'s, T: PartialEq> vstd::std_specs::cmp::PartialEqSpecImpl for Token<'s, T> {
    open spec fn obeys_eq_spec() -> bool {
        T::obeys_eq_spec()
    }

    open spec fn eq_spec(&self, other: &Self) -> bool {
        &&& self@.left_offset == other@.left_offset
        &&& self@.code == other@.code
        &&& self.variant.eq_spec(&other.variant)
    }
}

impl<'s, T: Eq> Eq for Token<'s, T> {

}

impl<'s, T: PartialEq> PartialEq<Token<'s, T>> for &Token<'s, T> {
    /// A borrowed token is equal to a token when the token behind the borrow is.
    fn eq(&self, other: &Token<'s, T>) -> (r: bool) {
        let this: &Token<'s, T> = *self;
        this == other
    }
}

impl<'s, T: PartialEq> vstd::std_specs::cmp::PartialEqSpecImpl<Token<'s, T>> for &Token<'s, T> {
    open spec fn obeys_eq_spec() -> bool {
        T::obeys_eq_spec()
    }

    open spec fn eq_spec(&self, other: &Token<'s, T>) -> bool {
        <Token<'s, T> as PartialEqSpec>::eq_spec(*self, other)
    }
}

impl<'s, T: Default> Default for Token<'s, T> {
    /// The default token holds no text, lies at the start of the source, and has the default
    /// variant.
    fn default() -> (r: Self)
        ensures
            r@.left_offset == OffsetView::empty(Location { utf8: 0 }),
            r@.code == CodeView::empty(Location { utf8: 0 }),
            call_ensures(T::default, (), r.variant),
    {
        Token { left_offset: Offset::default(), code: Code::default(), variant: T::default() }
    }
}

impl<'s, T> core::ops::DerefMut for Token<'s, T> {
    /// A token can stand where a mutable borrow of its variant is wanted.
    fn deref_mut(&mut self) -> (r: &mut T)
        ensures
            *r == old(self).variant,
            final(self).left_offset == old(self).left_offset,
            final(self).code == old(self).code,
            final(self).variant == *final(r),
    {
        &mut self.variant
    }
}

impl<'s, T> core::ops::Deref for Token<'s, T> {
    type Target = T;

    /// A token can stand where a borrow of its variant is wanted.
    fn deref(&self) -> (r: &T)
        ensures
            *r == self.variant,
    {
        &self.variant
    }
}

// ===========
// === Ref ===
// ===========

/// A reference of a [`Token`]. It is used mostly by AST visitors.
///
/// There is an important question involved – why we don't just use [`&Token<'s, T>`] instead.
/// The reason for that is that sometimes AST nodes contain [`Token<'s, T>`] for a specific [`T`]
/// and we want to traverse them for any possible variant, thus converting [`T`] to [`Variant`]
/// first. However, we do not want to clone the code during such an operation. This struct allows
/// viewing any [`Token<'s, T>`] as [`Ref<'s, Variant>`].
#[derive(Copy, Debug, PartialEq, Eq)]
pub struct Ref<'s, 'a, T = Variant> {
    /// What the token means.
    pub data: T,
    /// The offset of the token, where the token keeps it.
    pub left_offset: &'a Offset<'s>,
    /// The code of the token, where the token keeps it.
    pub code: &'a Code<'s>,
}

impl<'s, 'a, T: Clone> Clone for Ref<'s, 'a, T> {
    /// The clone borrows the same offset and code, and has a clone of the data.
    fn clone(&self) -> (r: Self)
        ensures
            r.left_offset == self.left_offset,
            r.code == self.code,
            cloned(self.data, r.data),
    {
        Ref { data: self.data.clone(), left_offset: self.left_offset, code: self.code }
    }
}

impl<'s, 'a, T, S> From<&'a Token<'s, T>> for Ref<'s, 'a, S> where T: Copy + Into<S> {
    /// Borrow the token's offset and code, and convert a copy of its variant.
    fn from(token: &'a Token<'s, T>) -> (r: Self) {
        Ref { data: token.variant.into(), left_offset: &token.left_offset, code: &token.code }
    }
}

impl<'s, 'a, T, S> vstd::std_specs::convert::FromSpecImpl<&'a Token<'s, T>> for Ref<'s, 'a, S> where T: Copy + Into<S> {
    open spec fn obeys_from_spec() -> bool {
        <T as IntoSpec<S>>::obeys_into_spec()
    }

    open spec fn from_spec(token: &'a Token<'s, T>) -> Self {
        Ref {
            data: <T as IntoSpec<S>>::into_spec(token.variant),
            left_offset: &token.left_offset,
            code: &token.code,
        }
    }
}

/// A token cut in two at a character boundary of its code renders as it did before: the text
/// of the first part followed by the text of the second is the text of the whole. Cut at offset
/// zero, the first part holds no code.
pub proof fn lemma_split_renders_the_same<T>(token: TokenView<T>, n: int)
    requires
        token.can_split_at(n),
    ensures
        token.left_of(n).rendered() + token.right_of(n).rendered() == token.rendered(),
        n == 0 ==> token.left_of(n).code.text.len() == 0 && token.left_of(n).rendered()
            == token.left_offset.code.text,
{
    lemma_split_parts(token.code, n);
    let offset = token.left_offset.code.text;
    let left = token.code.left_of(n).text;
    let right = token.code.right_of(n).text;
    assert((offset + left) + (Seq::<char>::empty() + right) =~= offset + (left + right));
    if n == 0 {
        assert(token.code.bytes().subrange(0, 0) =~= Seq::<u8>::empty());
        assert(offset + left =~= offset);
    }
}

/// Stripping a token of its position a second time changes nothing.
pub proof fn lemma_without_offsets_is_idempotent<T>(token: TokenView<T>)
    ensures
        token.without_offsets().without_offsets() == token.without_offsets(),
{
}

/// Two tokens are the same once stripped of their positions exactly when they differ in
/// nothing but their positions: when they have the same variant, the same code text, and an
/// offset of the same text and width.
pub proof fn lemma_without_offsets_forgets_positions_only<T>(a: TokenView<T>, b: TokenView<T>)
    ensures
        a.without_offsets() == b.without_offsets() <==> {
            &&& a.variant == b.variant
            &&& a.code.text == b.code.text
            &&& a.left_offset.code.text == b.left_offset.code.text
            &&& a.left_offset.visible == b.left_offset.visible
        },
{
}

/// Two tokens at different positions are different tokens, whatever else they hold.
pub proof fn lemma_position_tells_tokens_apart<T>(a: TokenView<T>, b: TokenView<T>)
    requires
        a.code.start != b.code.start || a.left_offset.code.start != b.left_offset.code.start,
    ensures
        a != b,
{
}

} // verus!
