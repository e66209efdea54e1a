//! The whitespace in front of a piece of code, and the span that both take in the source.

use crate::source::code::Code;
use crate::source::code::CodeView;
use crate::source::code::Length;
use crate::source::code::Location;
use vstd::prelude::*;

verus! {

/// The width of an offset as a reader sees it, in columns of one space each.
#[derive(Clone, Copy, Debug, PartialEq, Eq, Structural, Hash)]
pub struct VisibleOffset {
    /// Number of columns.
    pub width_in_spaces: usize,
}

/// Constructor.
#[allow(non_snake_case)]
pub fn VisibleOffset(width_in_spaces: usize) -> (r: VisibleOffset)
    ensures
        r.width_in_spaces == width_in_spaces,
{
    VisibleOffset { width_in_spaces }
}

impl Default for VisibleOffset {
    fn default() -> (r: Self)
        ensures
            r.width_in_spaces == 0,
    {
        VisibleOffset { width_in_spaces: 0 }
    }
}

/// What an [`Offset`] stands for.
pub struct OffsetView {
    /// The width as a reader sees it.
    pub visible: VisibleOffset,
    /// The text of the offset and its position.
    pub code: CodeView,
}

impl OffsetView {
    /// The same offset without its position.
    pub open spec fn without_offset(self) -> OffsetView {
        OffsetView { visible: self.visible, code: self.code.without_location() }
    }

    /// The offset of no width and no text at the given position.
    pub open spec fn empty(start: Location) -> OffsetView {
        OffsetView { visible: VisibleOffset { width_in_spaces: 0 }, code: CodeView::empty(start) }
    }
}

/// The text between a token and the one in front of it: whitespace, mostly.
#[derive(Clone, Copy, Debug)]
pub struct Offset<'s> {
    /// The width as a reader sees it.
    pub visible: VisibleOffset,
    /// The text of the offset.
    pub code: Code<'s>,
}

/// Constructor.
#[allow(non_snake_case)]
pub fn Offset<'s>(visible: VisibleOffset, code: Code<'s>) -> (r: Offset<'s>)
    ensures
        r.visible == visible,
        r.code == code,
{
    Offset { visible, code }
}

impl<'s> View for Offset<'s> {
    type V = OffsetView;

    open spec fn view(&self) -> OffsetView {
        OffsetView { visible: self.visible, code: self.code@ }
    }
}

impl<'s> PartialEq for Offset<'s> {
    /// Two offsets are equal when they have the same width and the same text at the same
    /// position.
    fn eq(&self, other: &Self) -> (r: bool) {
        self.visible.width_in_spaces == other.visible.width_in_spaces && self.code == other.code
    }
}

impl<'s> vstd::std_specs::cmp::PartialEqSpecImpl for Offset<'s> {
    open spec fn obeys_eq_spec() -> bool {
        true
    }

    open spec fn eq_spec(&self, other: &Self) -> bool {
        self@ == other@
    }
}

impl<'s> Eq for Offset<'s> {

}

impl<'s> Default for Offset<'s> {
    /// The default is the empty offset at the start of the source.
    fn default() -> (r: Self)
        ensures
            r@ == OffsetView::empty(Location { utf8: 0 }),
    {
        Offset::empty(Location { utf8: 0 })
    }
}

impl<'s> Offset<'s> {
    /// Return the offset of no width and no text at the given position.
    pub fn empty(location: Location) -> (r: Self)
        ensures
            r@ == OffsetView::empty(location),
    {
        Offset { visible: VisibleOffset { width_in_spaces: 0 }, code: Code::empty(location) }
    }

    /// Return the length of the offset's text.
    pub fn len(&self) -> (r: Length)
        ensures
            r.utf8 == self@.code.len(),
    {
        self.code.length()
    }

    /// Return whether the offset holds no text.
    pub fn is_empty(&self) -> (r: bool)
        ensures
            r == (self@.code.text.len() == 0),
    {
        self.code.is_empty()
    }

    /// Return the same offset without its position.
    pub fn without_offset(&self) -> (r: Self)
        ensures
            r@ == self@.without_offset(),
    {
        Offset { visible: self.visible, code: self.code.without_location() }
    }

    /// Take the offset out, and leave in its place the empty offset just behind it.
    pub fn take_as_prefix(&mut self) -> (r: Self)
        ensures
            r@ == old(self)@,
            final(self)@ == OffsetView::empty(Location { utf8: old(self)@.code.end() as usize }),
    {
        let visible = self.visible;
        self.visible = VisibleOffset { width_in_spaces: 0 };
        let code = self.code.take_as_prefix();
        Offset { visible, code }
    }
}

/// An offset and the length of the code behind it, owned.
#[derive(Clone, Copy, Debug, PartialEq, Eq)]
pub struct Span<'s> {
    /// The offset in front of the code.
    pub left_offset: Offset<'s>,
    /// The length of the code.
    pub code_length: Length,
}

/// What can be the first child of a larger piece of syntax. The parent then takes over the
/// offset in front of the child.
pub trait FirstChildTrim<'s> {
    /// Take the offset in front of this piece out of it, together with the length of its code,
    /// and leave the piece behind an empty offset.
    fn trim_as_first_child(&mut self) -> Span<'s>;
}

/// An offset and the length of the code behind it, borrowed from where they are kept.
#[derive(Clone, Copy, Debug, PartialEq, Eq)]
pub struct Ref<'s, 'a> {
    /// The offset in front of the code.
    pub left_offset: &'a Offset<'s>,
    /// The length of the code.
    pub code_length: Length,
}

} // verus!
