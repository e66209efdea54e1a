//! A slice of source code together with its position in the source.

use vstd::prelude::*;
use vstd::utf8::decode_utf8;
use vstd::utf8::decode_utf8_encode_utf8;
use vstd::utf8::decode_utf8_split;
use vstd::utf8::encode_utf8;
use vstd::utf8::encode_utf8_decode_utf8;
use vstd::utf8::encode_utf8_valid_utf8;
use vstd::utf8::is_char_boundary;
use vstd::utf8::valid_utf8_split;

verus! {

/// A position in the source, counted in bytes of its UTF-8 encoding from the start.
#[derive(Clone, Copy, Debug, PartialEq, Eq, Structural, PartialOrd, Ord, Hash)]
pub struct Location {
    /// Number of bytes in front of this position.
    pub utf8: usize,
}

/// The size of a piece of source text, counted in bytes of its UTF-8 encoding.
#[derive(Clone, Copy, Debug, PartialEq, Eq, Structural, PartialOrd, Ord, Hash)]
pub struct Length {
    /// Number of bytes.
    pub utf8: usize,
}

impl Default for Location {
    fn default() -> (r: Self)
        ensures
            r.utf8 == 0,
    {
        Location { utf8: 0 }
    }
}

impl Default for Length {
    fn default() -> (r: Self)
        ensures
            r.utf8 == 0,
    {
        Length { utf8: 0 }
    }
}

impl Location {
    /// The position that lies `length` behind this one.
    pub open spec fn plus(self, length: Length) -> int {
        self.utf8 + length.utf8
    }

    /// Return the position that lies `length` behind this one.
    pub fn advanced_by(self, length: Length) -> (r: Location)
        requires
            self.plus(length) <= usize::MAX,
        ensures
            r.utf8 == self.plus(length),
    {
        Location { utf8: self.utf8 + length.utf8 }
    }
}

impl Length {
    /// Return the length of the given text.
    pub fn of(text: &str) -> (r: Length)
        ensures
            r.utf8 == encode_utf8(text@).len(),
    {
        Length { utf8: byte_len(text) }
    }

    /// Return whether this is the length of the empty text.
    pub fn is_zero(self) -> (r: bool)
        ensures
            r == (self.utf8 == 0),
    {
        self.utf8 == 0
    }
}

/// Return the number of bytes that the text takes in UTF-8.
fn byte_len(text: &str) -> (r: usize)
    ensures
        r == encode_utf8(text@).len(),
{
    text.as_bytes().len()
}

/// Return whether the two texts hold the same characters.
fn same_text(a: &str, b: &str) -> (r: bool)
    ensures
        r == (a@ == b@),
{
    let left = a.as_bytes();
    let right = b.as_bytes();
    if left.len() != right.len() {
        return false;
    }
    let mut i: usize = 0;
    while i < left.len()
        invariant
            left@ == encode_utf8(a@),
            right@ == encode_utf8(b@),
            left@.len() == right@.len(),
            i <= left@.len(),
            left@.subrange(0, i as int) == right@.subrange(0, i as int),
        decreases left@.len() - i,
    {
        if left[i] != right[i] {
            assert(left@[i as int] != right@[i as int]);
            return false;
        }
        assert(left@.subrange(0, i + 1) =~= left@.subrange(0, i as int).push(left@[i as int]));
        assert(right@.subrange(0, i + 1) =~= right@.subrange(0, i as int).push(right@[i as int]));
        i += 1;
    }
    proof {
        assert(left@ =~= left@.subrange(0, i as int));
        assert(right@ =~= right@.subrange(0, i as int));
        encode_utf8_decode_utf8(a@);
        encode_utf8_decode_utf8(b@);
    }
    true
}

/// What a [`Code`] stands for: a text and the place in the source where it begins.
pub struct CodeView {
    /// The characters of the slice.
    pub text: Seq<char>,
    /// The position of the first byte of the slice.
    pub start: Location,
}

impl CodeView {
    /// The UTF-8 encoding of the text.
    pub open spec fn bytes(self) -> Seq<u8> {
        encode_utf8(self.text)
    }

    /// The number of bytes that the text takes in the source.
    pub open spec fn len(self) -> nat {
        self.bytes().len()
    }

    /// The byte offset just behind the slice.
    pub open spec fn end(self) -> int {
        self.start.utf8 + self.len()
    }

    /// Whether the end of the slice is a machine-representable position.
    pub open spec fn fits(self) -> bool {
        self.end() <= usize::MAX
    }

    /// The same text, placed at the start of the source.
    pub open spec fn without_location(self) -> CodeView {
        CodeView { text: self.text, start: Location { utf8: 0 } }
    }

    /// The empty slice at the given position.
    pub open spec fn empty(start: Location) -> CodeView {
        CodeView { text: Seq::empty(), start }
    }

    /// Whether `n` is a byte offset into the text at which it can be cut in two texts.
    pub open spec fn can_split_at(self, n: int) -> bool {
        is_char_boundary(self.bytes(), n)
    }

    /// The part of the slice in front of byte offset `n`.
    pub open spec fn left_of(self, n: int) -> CodeView {
        CodeView { text: decode_utf8(self.bytes().subrange(0, n)), start: self.start }
    }

    /// The part of the slice from byte offset `n` on.
    pub open spec fn right_of(self, n: int) -> CodeView {
        CodeView {
            text: decode_utf8(self.bytes().subrange(n, self.len() as int)),
            start: Location { utf8: (self.start.utf8 + n) as usize },
        }
    }
}

/// A cut at a character boundary lies inside the text, and the two parts put together are the
/// text again, in characters and in bytes.
pub proof fn lemma_split_parts(code: CodeView, n: int)
    requires
        code.can_split_at(n),
    ensures
        0 <= n <= code.len(),
        code.left_of(n).text + code.right_of(n).text == code.text,
        code.left_of(n).bytes() == code.bytes().subrange(0, n),
        code.right_of(n).bytes() == code.bytes().subrange(n, code.len() as int),
        code.left_of(n).bytes() + code.right_of(n).bytes() == code.bytes(),
        code.left_of(n).len() == n,
        code.right_of(n).len() == code.len() - n,
{
    let bytes = code.bytes();
    encode_utf8_valid_utf8(code.text);
    encode_utf8_decode_utf8(code.text);
    decode_utf8_split(bytes, n);
    valid_utf8_split(bytes, n);
    decode_utf8_encode_utf8(bytes.subrange(0, n));
    decode_utf8_encode_utf8(bytes.subrange(n, bytes.len() as int));
    assert(bytes.subrange(0, n) + bytes.subrange(n, bytes.len() as int) =~= bytes);
}

/// A slice of source code: a borrowed text and the position at which it begins.
#[derive(Clone, Copy, Debug)]
pub struct Code<'s> {
    repr: &'s str,
    start: Location,
}

impl<'s> View for Code<'s> {
    type V = CodeView;

    closed spec fn view(&self) -> CodeView {
        CodeView { text: self.repr@, start: self.start }
    }
}

impl<'s> PartialEq for Code<'s> {
    /// Two slices are equal when they hold the same text at the same position.
    fn eq(&self, other: &Self) -> (r: bool) {
        self.start.utf8 == other.start.utf8 && same_text(self.repr, other.repr)
    }
}

impl<'s> vstd::std_specs::cmp::PartialEqSpecImpl for Code<'s> {
    open spec fn obeys_eq_spec() -> bool {
        true
    }

    open spec fn eq_spec(&self, other: &Self) -> bool {
        self@ == other@
    }
}

impl<'s> Eq for Code<'s> {

}

impl<'s> Default for Code<'s> {
    /// The default is the empty slice at the start of the source.
    fn default() -> (r: Self)
        ensures
            r@ == CodeView::empty(Location { utf8: 0 }),
    {
        Code::empty(Location { utf8: 0 })
    }
}

impl<'s> Code<'s> {
    #[verifier::type_invariant]
    spec fn ends_within_reach(&self) -> bool {
        self@.fits()
    }

    /// Return the slice that holds the given text and begins at the given position.
    pub fn from_str_at_location(repr: &'s str, location: Location) -> (r: Self)
        requires
            (CodeView { text: repr@, start: location }).fits(),
        ensures
            r@ == (CodeView { text: repr@, start: location }),
    {
        Code { repr, start: location }
    }

    /// Return the slice that holds the given text and begins at the start of the source.
    pub fn from_str_without_location(repr: &'s str) -> (r: Self)
        ensures
            r@ == (CodeView { text: repr@, start: Location { utf8: 0 } }),
    {
        let _len = byte_len(repr);
        Code { repr, start: Location { utf8: 0 } }
    }

    /// Return the empty slice at the given position.
    pub fn empty(location: Location) -> (r: Self)
        ensures
            r@ == CodeView::empty(location),
    {
        let repr: &'s str = "";
        proof {
            reveal_strlit("");
            assert(repr@ =~= Seq::<char>::empty());
        }
        Code { repr, start: location }
    }

    /// Return the text of the slice.
    pub fn repr(&self) -> (r: &'s str)
        ensures
            r@ == self@.text,
    {
        self.repr
    }

    /// Return the position at which the slice begins.
    pub fn start(&self) -> (r: Location)
        ensures
            r == self@.start,
    {
        self.start
    }

    /// Return the position just behind the slice.
    pub fn end(&self) -> (r: Location)
        ensures
            r.utf8 == self@.end(),
    {
        proof {
            use_type_invariant(self);
        }
        Location { utf8: self.start.utf8 + byte_len(self.repr) }
    }

    /// Return the length of the slice.
    pub fn length(&self) -> (r: Length)
        ensures
            r.utf8 == self@.len(),
    {
        Length { utf8: byte_len(self.repr) }
    }

    /// Return whether the slice holds no text.
    pub fn is_empty(&self) -> (r: bool)
        ensures
            r == (self@.text.len() == 0),
    {
        self.repr.is_empty()
    }

    /// Return the empty slice at the position where this one begins.
    pub fn position_before(&self) -> (r: Self)
        ensures
            r@ == CodeView::empty(self@.start),
    {
        Code::empty(self.start)
    }

    /// Return the empty slice at the position just behind this one.
    pub fn position_after(&self) -> (r: Self)
        ensures
            r@ == CodeView::empty(Location { utf8: self@.end() as usize }),
    {
        Code::empty(self.end())
    }

    /// Return whether the slice can be cut at the given length: whether that many bytes are a
    /// whole number of its characters.
    pub fn can_split_at(&self, split: Length) -> (r: bool)
        ensures
            r == self@.can_split_at(split.utf8 as int),
    {
        self.repr.is_char_boundary(split.utf8)
    }

    /// Cut the slice in two at the given length, which must lie on a character boundary. The
    /// first part keeps the position, the second begins where the first ends.
    pub fn split_at(&self, split: Length) -> (r: (Self, Self))
        requires
            self@.can_split_at(split.utf8 as int),
        ensures
            r.0@ == self@.left_of(split.utf8 as int),
            r.1@ == self@.right_of(split.utf8 as int),
    {
        let (left, right) = self.repr.split_at(split.utf8);
        proof {
            use_type_invariant(self);
            lemma_split_parts(self@, split.utf8 as int);
            encode_utf8_decode_utf8(left@);
            encode_utf8_decode_utf8(right@);
        }
        let second = Location { utf8: self.start.utf8 + split.utf8 };
        (Code { repr: left, start: self.start }, Code { repr: right, start: second })
    }

    /// Return the same text without its position: placed at the start of the source.
    pub fn without_location(&self) -> (r: Self)
        ensures
            r@ == self@.without_location(),
    {
        proof {
            use_type_invariant(self);
        }
        Code { repr: self.repr, start: Location { utf8: 0 } }
    }

    /// Take the slice out, and leave in its place the empty slice just behind it.
    pub fn take_as_prefix(&mut self) -> (r: Self)
        ensures
            r@ == old(self)@,
            final(self)@ == CodeView::empty(Location { utf8: old(self)@.end() as usize }),
    {
        proof {
            use_type_invariant(&*self);
        }
        let taken = Code { repr: self.repr, start: self.start };
        let after = taken.end();
        let rest = Code::empty(after);
        *self = rest;
        taken
    }
}

} // verus!
