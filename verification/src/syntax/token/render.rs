//! Printing tokens back to source text.
//!
//! A token holds the text it was read from, and the text between it and the token in front. So a
//! sequence of tokens that was read from a source, one after the other and with nothing left
//! out, prints back to that source exactly. This module says what that means and proves it.

use crate::source::code::CodeView;
use crate::syntax::token::Token;
use crate::syntax::token::TokenView;
use vstd::prelude::*;
use vstd::string::StringExecFns;
use vstd::utf8::encode_utf8;
use vstd::utf8::encode_utf8_decode_utf8;

verus! {

/// What each of the tokens stands for, in their order.
pub open spec fn views<'s, T>(tokens: Seq<Token<'s, T>>) -> Seq<TokenView<T>> {
    Seq::new(tokens.len(), |i: int| tokens[i]@)
}

/// The text that the tokens take in the source: the text of each, one after the other.
pub open spec fn rendered_all<T>(tokens: Seq<TokenView<T>>) -> Seq<char>
    decreases tokens.len(),
{
    if tokens.len() == 0 {
        Seq::empty()
    } else {
        rendered_all(tokens.drop_last()) + tokens.last().rendered()
    }
}

/// The byte offset in the source at which the first `count` of the tokens end: the end of the
/// code of the last of them, and the start of the source where there is none.
pub open spec fn end_of_first<T>(tokens: Seq<TokenView<T>>, count: int) -> int {
    if count <= 0 {
        0
    } else {
        tokens[count - 1].code.end()
    }
}

/// Whether the slice is the part of the source that lies at the slice's position. The source is
/// given by its bytes.
pub open spec fn is_slice_of(code: CodeView, source: Seq<u8>) -> bool {
    &&& code.end() <= source.len()
    &&& source.subrange(code.start.utf8 as int, code.end()) == code.bytes()
}

/// Whether the tokens were read from the source one after the other, with no gap and no
/// overlap: the offset of each begins where the token in front ends (the first one at the start
/// of the source), its code begins where its offset ends, both are the text that the source
/// holds at their positions, and the last token ends where the source ends.
pub open spec fn covers<T>(tokens: Seq<TokenView<T>>, source: Seq<char>) -> bool {
    &&& forall|i: int|
        0 <= i < tokens.len() ==> {
            &&& (#[trigger] tokens[i]).left_offset.code.start.utf8 == end_of_first(tokens, i)
            &&& tokens[i].code.start.utf8 == tokens[i].left_offset.code.end()
            &&& is_slice_of(tokens[i].left_offset.code, encode_utf8(source))
            &&& is_slice_of(tokens[i].code, encode_utf8(source))
        }
    &&& end_of_first(tokens, tokens.len() as int) == encode_utf8(source).len()
}

/// The encoding of two texts, one after the other, is the encoding of the first followed by
/// the encoding of the second.
pub proof fn lemma_encoding_of_joined_texts(first: Seq<char>, second: Seq<char>)
    ensures
        encode_utf8(first + second) == encode_utf8(first) + encode_utf8(second),
    decreases first.len(),
{
    if first.len() == 0 {
        assert(first + second =~= second);
        assert(encode_utf8(first) + encode_utf8(second) =~= encode_utf8(second));
    } else {
        lemma_encoding_of_joined_texts(first.drop_first(), second);
        assert((first + second).drop_first() =~= first.drop_first() + second);
        assert(encode_utf8(first + second) =~= encode_utf8(first) + encode_utf8(second));
    }
}

/// The first `count` of tokens that cover a source print back to the source up to the place
/// where they end.
proof fn lemma_prefix_prints_back<T>(tokens: Seq<TokenView<T>>, source: Seq<char>, count: int)
    requires
        covers(tokens, source),
        0 <= count <= tokens.len(),
    ensures
        0 <= end_of_first(tokens, count) <= encode_utf8(source).len(),
        encode_utf8(rendered_all(tokens.take(count))) == encode_utf8(source).subrange(
            0,
            end_of_first(tokens, count),
        ),
    decreases count,
{
    let bytes = encode_utf8(source);
    if count == 0 {
        assert(tokens.take(0) =~= Seq::<TokenView<T>>::empty());
        assert(bytes.subrange(0, 0) =~= Seq::<u8>::empty());
    } else {
        lemma_prefix_prints_back(tokens, source, count - 1);
        let token = tokens[count - 1];
        let before = rendered_all(tokens.take(count - 1));
        assert(tokens.take(count).drop_last() =~= tokens.take(count - 1));
        assert(tokens.take(count).last() == token);
        assert(rendered_all(tokens.take(count)) == before + token.rendered());
        lemma_encoding_of_joined_texts(before, token.rendered());
        lemma_encoding_of_joined_texts(token.left_offset.code.text, token.code.text);
        let begin = end_of_first(tokens, count - 1);
        let middle = token.left_offset.code.end();
        let end = token.code.end();
        assert(bytes.subrange(0, begin) + (bytes.subrange(begin, middle) + bytes.subrange(
            middle,
            end,
        )) =~= bytes.subrange(0, end));
    }
}

/// Tokens that cover a source print back to it: the text of each, one after the other, is the
/// text of the source, character for character.
pub proof fn lemma_tokens_print_back_to_source<T>(tokens: Seq<TokenView<T>>, source: Seq<char>)
    requires
        covers(tokens, source),
    ensures
        rendered_all(tokens) == source,
{
    let bytes = encode_utf8(source);
    lemma_prefix_prints_back(tokens, source, tokens.len() as int);
    assert(tokens.take(tokens.len() as int) =~= tokens);
    assert(bytes.subrange(0, bytes.len() as int) =~= bytes);
    encode_utf8_decode_utf8(rendered_all(tokens));
    encode_utf8_decode_utf8(source);
}

impl<'s, T> Token<'s, T> {
    /// Return the text that the token takes in the source: that of its offset, then its code.
    pub fn render(&self) -> (r: String)
        ensures
            r@ == self@.rendered(),
    {
        let mut text = String::from_str(self.left_offset.code.repr());
        text.append(self.code.repr());
        text
    }
}

/// Return the text that the tokens take in the source: the text of each, one after the other.
pub fn render_all<'s, T>(tokens: &[Token<'s, T>]) -> (r: String)
    ensures
        r@ == rendered_all(views(tokens@)),
{
    let mut text = String::new();
    let mut i: usize = 0;
    assert(views(tokens@).take(0) =~= Seq::<TokenView<T>>::empty());
    while i < tokens.len()
        invariant
            i <= tokens@.len(),
            text@ == rendered_all(views(tokens@).take(i as int)),
        decreases tokens@.len() - i,
    {
        let token = &tokens[i];
        text.append(token.left_offset.code.repr());
        text.append(token.code.repr());
        proof {
            let all = views(tokens@);
            assert(all.take(i + 1).drop_last() =~= all.take(i as int));
            assert(all.take(i + 1).last() == token@);
            assert(text@ =~= rendered_all(all.take(i as int)) + token@.rendered());
        }
        i += 1;
    }
    assert(views(tokens@).take(i as int) =~= views(tokens@));
    text
}

} // verus!
