//! Where a picture stands in its frame, and how large.
//!
//! Places and extents are fractions of the frame. They are kept as they were
//! written: a percentage holds its literal, and a place says from which edge
//! it is measured. Turning them into numbers is left to whoever draws.

use vstd::prelude::*;
use crate::number::{is_number, is_number_literal};
use crate::text::chars_of;

verus! {

/// The literal of a percentage: a word is one if it ends in `%` and what
/// stands before that one sign is a number literal.
pub open spec fn percent_literal(word: Seq<char>) -> Option<Seq<char>> {
    if word.len() > 0 && word.last() == '%' && is_number_literal(word.drop_last()) {
        Some(word.drop_last())
    } else {
        None
    }
}

/// A percentage, held as the literal that stood before the `%`.
#[derive(Debug, PartialEq, Eq)]
pub struct Percent {
    literal: String,
}

impl View for Percent {
    type V = Seq<char>;

    closed spec fn view(&self) -> Seq<char> {
        self.literal@
    }
}

impl DeepView for Percent {
    type V = Seq<char>;

    open spec fn deep_view(&self) -> Seq<char> {
        self@
    }
}

impl Percent {
    #[verifier::type_invariant]
    spec fn well_formed(self) -> bool {
        is_number_literal(self.literal@)
    }

    /// The percentage that `literal` writes, if it is a number literal.
    pub fn new(literal: &str) -> (r: Option<Percent>)
        ensures
            r is Some <==> is_number_literal(literal@),
            r matches Some(p) ==> p@ == literal@,
    {
        let chars = chars_of(literal);
        if is_number(chars.as_slice()) {
            Some(Percent { literal: literal.to_owned() })
        } else {
            None
        }
    }

    /// The percentage that a word of the form `<N>%` writes.
    pub fn parse(word: &str) -> (r: Option<Percent>)
        ensures
            r.deep_view() == percent_literal(word@),
    {
        let chars = chars_of(word);
        let n = chars.len();
        if n == 0 || chars[n - 1] != '%' {
            return None;
        }
        let number = vstd::slice::slice_subrange(chars.as_slice(), 0, n - 1);
        assert(number@ == chars@.drop_last());
        if is_number(number) {
            Some(Percent { literal: word.substring_char(0, n - 1).to_owned() })
        } else {
            None
        }
    }

    /// The whole: `100%`.
    pub fn full() -> (r: Percent)
        ensures
            r@ == "100"@,
    {
        proof {
            lemma_full_is_number();
        }
        Percent { literal: "100".to_owned() }
    }

    /// The literal of this percentage, which is a number literal.
    pub fn literal(&self) -> (r: &str)
        ensures
            r@ == self@,
            is_number_literal(r@),
    {
        proof {
            use_type_invariant(self);
        }
        self.literal.as_str()
    }
}

impl Clone for Percent {
    fn clone(&self) -> (r: Self)
        ensures
            r == *self,
    {
        proof {
            use_type_invariant(self);
        }
        Percent { literal: self.literal.clone() }
    }
}

/// `100` is a number literal.
proof fn lemma_full_is_number()
    ensures
        is_number_literal("100"@),
{
    reveal_strlit("100");
    let s = "100"@;
    reveal_with_fuel(crate::number::digits_len, 5);
    assert(s.skip(1)[0] == '0');
    assert(s.skip(1).skip(1)[0] == '0');
    assert(s.skip(1).skip(1).skip(1).len() == 0);
    assert(crate::number::digits_len(s) == 3);
    assert(s.skip(3).len() == 0);
}

/// A place on one axis of the frame.
#[derive(Debug, PartialEq, Eq)]
pub enum Coordinate {
    /// The near edge: left or top; the fraction 0.
    Start,
    /// The middle; the fraction one half.
    Center,
    /// The far edge: right or bottom; the fraction 1.
    End,
    /// A percentage of the frame, measured from the near edge.
    Percent(Percent),
    /// A percentage of the frame, measured back from the far edge: one less
    /// the percentage.
    PercentFromEnd(Percent),
}

/// What a [`Coordinate`] holds.
pub enum CoordinateView {
    Start,
    Center,
    End,
    Percent(Seq<char>),
    PercentFromEnd(Seq<char>),
}

impl DeepView for Coordinate {
    type V = CoordinateView;

    open spec fn deep_view(&self) -> CoordinateView {
        match self {
            Coordinate::Start => CoordinateView::Start,
            Coordinate::Center => CoordinateView::Center,
            Coordinate::End => CoordinateView::End,
            Coordinate::Percent(p) => CoordinateView::Percent(p@),
            Coordinate::PercentFromEnd(p) => CoordinateView::PercentFromEnd(p@),
        }
    }
}

impl Clone for Coordinate {
    fn clone(&self) -> (r: Self)
        ensures
            r == *self,
    {
        match self {
            Coordinate::Start => Coordinate::Start,
            Coordinate::Center => Coordinate::Center,
            Coordinate::End => Coordinate::End,
            Coordinate::Percent(p) => Coordinate::Percent(p.clone()),
            Coordinate::PercentFromEnd(p) => Coordinate::PercentFromEnd(p.clone()),
        }
    }
}

/// A place in the frame: across, then down.
#[derive(Debug, PartialEq, Eq)]
pub struct Position(pub Coordinate, pub Coordinate);

/// What a [`Position`] holds.
pub struct PositionView(pub CoordinateView, pub CoordinateView);

impl DeepView for Position {
    type V = PositionView;

    open spec fn deep_view(&self) -> PositionView {
        PositionView(self.0.deep_view(), self.1.deep_view())
    }
}

impl Clone for Position {
    fn clone(&self) -> (r: Self)
        ensures
            r == *self,
    {
        Position(self.0.clone(), self.1.clone())
    }
}

impl Default for Position {
    /// The top left corner.
    fn default() -> (r: Self)
        ensures
            r == Position(Coordinate::Start, Coordinate::Start),
    {
        Position(Coordinate::Start, Coordinate::Start)
    }
}

/// How large a picture is drawn.
#[derive(Debug, PartialEq, Eq)]
pub enum Size {
    /// As small as still covers the frame.
    Cover,
    /// As large as still fits the frame.
    Contain,
    /// A width, as a part of the frame's; the height follows.
    FixedWidth(Percent),
    /// A height, as a part of the frame's; the width follows.
    FixedHeight(Percent),
    /// A width and a height, each as a part of the frame's.
    Fixed(Percent, Percent),
}

/// What a [`Size`] holds.
pub enum SizeView {
    Cover,
    Contain,
    FixedWidth(Seq<char>),
    FixedHeight(Seq<char>),
    Fixed(Seq<char>, Seq<char>),
}

impl DeepView for Size {
    type V = SizeView;

    open spec fn deep_view(&self) -> SizeView {
        match self {
            Size::Cover => SizeView::Cover,
            Size::Contain => SizeView::Contain,
            Size::FixedWidth(w) => SizeView::FixedWidth(w@),
            Size::FixedHeight(h) => SizeView::FixedHeight(h@),
            Size::Fixed(w, h) => SizeView::Fixed(w@, h@),
        }
    }
}

impl Clone for Size {
    fn clone(&self) -> (r: Self)
        ensures
            r == *self,
    {
        match self {
            Size::Cover => Size::Cover,
            Size::Contain => Size::Contain,
            Size::FixedWidth(w) => Size::FixedWidth(w.clone()),
            Size::FixedHeight(h) => Size::FixedHeight(h.clone()),
            Size::Fixed(w, h) => Size::Fixed(w.clone(), h.clone()),
        }
    }
}

impl Default for Size {
    fn default() -> (r: Self)
        ensures
            r == Size::Contain,
    {
        Size::Contain
    }
}

/// A place and a size.
#[derive(Debug, PartialEq, Eq)]
pub struct Location {
    pub position: Position,
    pub size: Size,
}

/// What a [`Location`] holds.
pub struct LocationView {
    pub position: PositionView,
    pub size: SizeView,
}

impl DeepView for Location {
    type V = LocationView;

    open spec fn deep_view(&self) -> LocationView {
        LocationView { position: self.position.deep_view(), size: self.size.deep_view() }
    }
}

impl Clone for Location {
    fn clone(&self) -> (r: Self)
        ensures
            r == *self,
    {
        Location { position: self.position.clone(), size: self.size.clone() }
    }
}

impl Default for Location {
    /// The top left corner, as large as fits.
    fn default() -> (r: Self)
        ensures
            r == (Location {
                position: Position(Coordinate::Start, Coordinate::Start),
                size: Size::Contain,
            }),
    {
        Location { position: Position::default(), size: Size::default() }
    }
}

/// The place of the top left corner.
pub open spec fn default_position() -> PositionView {
    PositionView(CoordinateView::Start, CoordinateView::Start)
}

} // verus!
