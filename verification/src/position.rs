//! The grammar of places: from a run of keywords to a [`Position`].

use vstd::prelude::*;
use crate::location::{percent_literal, Coordinate, CoordinateView, Percent, Position, PositionView};
use crate::text::str_eq;

verus! {

/// A word of the grammar of places.
#[derive(Debug, PartialEq, Eq)]
pub enum PositionKeyword {
    Left,
    Right,
    Top,
    Bottom,
    Center,
    Percent(Percent),
}

/// What a [`PositionKeyword`] holds.
pub enum PositionKeywordView {
    Left,
    Right,
    Top,
    Bottom,
    Center,
    Percent(Seq<char>),
}

impl DeepView for PositionKeyword {
    type V = PositionKeywordView;

    open spec fn deep_view(&self) -> PositionKeywordView {
        match self {
            PositionKeyword::Left => PositionKeywordView::Left,
            PositionKeyword::Right => PositionKeywordView::Right,
            PositionKeyword::Top => PositionKeywordView::Top,
            PositionKeyword::Bottom => PositionKeywordView::Bottom,
            PositionKeyword::Center => PositionKeywordView::Center,
            PositionKeyword::Percent(p) => PositionKeywordView::Percent(p@),
        }
    }
}

impl Clone for PositionKeyword {
    fn clone(&self) -> (r: Self)
        ensures
            r == *self,
    {
        match self {
            PositionKeyword::Left => PositionKeyword::Left,
            PositionKeyword::Right => PositionKeyword::Right,
            PositionKeyword::Top => PositionKeyword::Top,
            PositionKeyword::Bottom => PositionKeyword::Bottom,
            PositionKeyword::Center => PositionKeyword::Center,
            PositionKeyword::Percent(p) => PositionKeyword::Percent(p.clone()),
        }
    }
}

/// The keyword that a word writes, if any.
pub open spec fn position_keyword(word: Seq<char>) -> Option<PositionKeywordView> {
    if word == "left"@ {
        Some(PositionKeywordView::Left)
    } else if word == "right"@ {
        Some(PositionKeywordView::Right)
    } else if word == "top"@ {
        Some(PositionKeywordView::Top)
    } else if word == "bottom"@ {
        Some(PositionKeywordView::Bottom)
    } else if word == "center"@ {
        Some(PositionKeywordView::Center)
    } else {
        match percent_literal(word) {
            Some(p) => Some(PositionKeywordView::Percent(p)),
            None => None,
        }
    }
}

/// Reads one word of the grammar of places.
pub fn parse_position_keyword(param: &str) -> (r: Option<PositionKeyword>)
    ensures
        r.deep_view() == position_keyword(param@),
{
    if str_eq(param, "left") {
        Some(PositionKeyword::Left)
    } else if str_eq(param, "right") {
        Some(PositionKeyword::Right)
    } else if str_eq(param, "top") {
        Some(PositionKeyword::Top)
    } else if str_eq(param, "bottom") {
        Some(PositionKeyword::Bottom)
    } else if str_eq(param, "center") {
        Some(PositionKeyword::Center)
    } else {
        match Percent::parse(param) {
            Some(p) => Some(PositionKeyword::Percent(p)),
            None => None,
        }
    }
}

/// Whether a word is one of the grammar of places.
pub fn is_position_keyword(word: &str) -> (r: bool)
    ensures
        r == position_keyword(word@).is_some(),
{
    parse_position_keyword(word).is_some()
}

/// Where a keyword stands across the frame, if it can say so: `left`,
/// `center`, `right`, or a percentage.
pub open spec fn across(k: PositionKeywordView) -> Option<CoordinateView> {
    match k {
        PositionKeywordView::Left => Some(CoordinateView::Start),
        PositionKeywordView::Center => Some(CoordinateView::Center),
        PositionKeywordView::Right => Some(CoordinateView::End),
        PositionKeywordView::Percent(p) => Some(CoordinateView::Percent(p)),
        _ => None,
    }
}

/// Where a keyword stands down the frame, if it can say so: `top`, `center`,
/// `bottom`, or a percentage.
pub open spec fn down(k: PositionKeywordView) -> Option<CoordinateView> {
    match k {
        PositionKeywordView::Top => Some(CoordinateView::Start),
        PositionKeywordView::Center => Some(CoordinateView::Center),
        PositionKeywordView::Bottom => Some(CoordinateView::End),
        PositionKeywordView::Percent(p) => Some(CoordinateView::Percent(p)),
        _ => None,
    }
}

/// The two edges across the frame.
pub open spec fn is_side(k: PositionKeywordView) -> bool {
    k is Left || k is Right
}

/// The two edges down the frame.
pub open spec fn is_end(k: PositionKeywordView) -> bool {
    k is Top || k is Bottom
}

/// The place at the distance `p` from an edge: from `left` and `top` the
/// percentage itself, from `right` and `bottom` what is left of the whole.
pub open spec fn inset(edge: PositionKeywordView, p: Seq<char>) -> CoordinateView {
    if edge is Right || edge is Bottom {
        CoordinateView::PercentFromEnd(p)
    } else {
        CoordinateView::Percent(p)
    }
}

/// One word: a keyword of either axis, the other axis centred; a percentage
/// counts across.
pub open spec fn resolve_one(a: PositionKeywordView) -> Option<PositionView> {
    match across(a) {
        Some(x) => Some(PositionView(x, CoordinateView::Center)),
        None => Some(PositionView(CoordinateView::Center, down(a).unwrap())),
    }
}

/// Two words: across then down, where percentages may stand; or down then
/// across, of keywords alone.
pub open spec fn resolve_two(a: PositionKeywordView, b: PositionKeywordView) -> Option<
    PositionView,
> {
    if across(a) is Some && down(b) is Some {
        Some(PositionView(across(a).unwrap(), down(b).unwrap()))
    } else if !(a is Percent) && !(b is Percent) && down(a) is Some && across(b) is Some {
        Some(PositionView(across(b).unwrap(), down(a).unwrap()))
    } else {
        None
    }
}

/// An edge with its distance and a keyword of the other axis: the place that
/// the two say, whichever of the two axes comes first.
pub open spec fn resolve_inset(
    edge: PositionKeywordView,
    p: Seq<char>,
    other: PositionKeywordView,
) -> Option<PositionView> {
    if other is Percent {
        None
    } else if is_side(edge) && down(other) is Some {
        Some(PositionView(inset(edge, p), down(other).unwrap()))
    } else if is_end(edge) && across(other) is Some {
        Some(PositionView(across(other).unwrap(), inset(edge, p)))
    } else {
        None
    }
}

/// Three words: an edge, its distance, and a keyword of the other axis, which
/// stands last or first.
pub open spec fn resolve_three(
    a: PositionKeywordView,
    b: PositionKeywordView,
    c: PositionKeywordView,
) -> Option<PositionView> {
    match (b, c) {
        (PositionKeywordView::Percent(p), _) => resolve_inset(a, p, c),
        (_, PositionKeywordView::Percent(p)) => resolve_inset(b, p, a),
        _ => None,
    }
}

/// Four words: an edge of each axis, each with its distance, in either order.
pub open spec fn resolve_four(
    a: PositionKeywordView,
    b: PositionKeywordView,
    c: PositionKeywordView,
    d: PositionKeywordView,
) -> Option<PositionView> {
    match (b, d) {
        (PositionKeywordView::Percent(p), PositionKeywordView::Percent(q)) => {
            if is_side(a) && is_end(c) {
                Some(PositionView(inset(a, p), inset(c, q)))
            } else if is_end(a) && is_side(c) {
                Some(PositionView(inset(c, q), inset(a, p)))
            } else {
                None
            }
        },
        _ => None,
    }
}

/// The place that a run of keywords says, if the run is one that the grammar
/// accepts. A bare percentage binds to the axis of the edge before it; no word
/// is guessed at.
pub open spec fn resolve_position(input: Seq<PositionKeywordView>) -> Option<PositionView> {
    if input.len() == 0 {
        Some(PositionView(CoordinateView::Start, CoordinateView::Start))
    } else if input.len() == 1 {
        resolve_one(input[0])
    } else if input.len() == 2 {
        resolve_two(input[0], input[1])
    } else if input.len() == 3 {
        resolve_three(input[0], input[1], input[2])
    } else if input.len() == 4 {
        resolve_four(input[0], input[1], input[2], input[3])
    } else {
        None
    }
}

fn parse_one(a: &PositionKeyword) -> (r: Option<Position>)
    ensures
        r.deep_view() == resolve_one(a.deep_view()),
{
    match a {
        PositionKeyword::Left => Some(Position(Coordinate::Start, Coordinate::Center)),
        PositionKeyword::Right => Some(Position(Coordinate::End, Coordinate::Center)),
        PositionKeyword::Top => Some(Position(Coordinate::Center, Coordinate::Start)),
        PositionKeyword::Bottom => Some(Position(Coordinate::Center, Coordinate::End)),
        PositionKeyword::Center => Some(Position(Coordinate::Center, Coordinate::Center)),
        PositionKeyword::Percent(x) => Some(
            Position(Coordinate::Percent(x.clone()), Coordinate::Center),
        ),
    }
}

fn parse_two(a: &PositionKeyword, b: &PositionKeyword) -> (r: Option<Position>)
    ensures
        r.deep_view() == resolve_two(a.deep_view(), b.deep_view()),
{
    match (a, b) {
        (PositionKeyword::Left, PositionKeyword::Top) => Some(
            Position(Coordinate::Start, Coordinate::Start),
        ),
        (PositionKeyword::Top, PositionKeyword::Left) => Some(
            Position(Coordinate::Start, Coordinate::Start),
        ),
        (PositionKeyword::Left, PositionKeyword::Center) => Some(
            Position(Coordinate::Start, Coordinate::Center),
        ),
        (PositionKeyword::Center, PositionKeyword::Left) => Some(
            Position(Coordinate::Start, Coordinate::Center),
        ),
        (PositionKeyword::Left, PositionKeyword::Bottom) => Some(
            Position(Coordinate::Start, Coordinate::End),
        ),
        (PositionKeyword::Bottom, PositionKeyword::Left) => Some(
            Position(Coordinate::Start, Coordinate::End),
        ),
        (PositionKeyword::Right, PositionKeyword::Top) => Some(
            Position(Coordinate::End, Coordinate::Start),
        ),
        (PositionKeyword::Top, PositionKeyword::Right) => Some(
            Position(Coordinate::End, Coordinate::Start),
        ),
        (PositionKeyword::Right, PositionKeyword::Center) => Some(
            Position(Coordinate::End, Coordinate::Center),
        ),
        (PositionKeyword::Center, PositionKeyword::Right) => Some(
            Position(Coordinate::End, Coordinate::Center),
        ),
        (PositionKeyword::Right, PositionKeyword::Bottom) => Some(
            Position(Coordinate::End, Coordinate::End),
        ),
        (PositionKeyword::Bottom, PositionKeyword::Right) => Some(
            Position(Coordinate::End, Coordinate::End),
        ),
        (PositionKeyword::Top, PositionKeyword::Center) => Some(
            Position(Coordinate::Center, Coordinate::Start),
        ),
        (PositionKeyword::Center, PositionKeyword::Top) => Some(
            Position(Coordinate::Center, Coordinate::Start),
        ),
        (PositionKeyword::Center, PositionKeyword::Center) => Some(
            Position(Coordinate::Center, Coordinate::Center),
        ),
        (PositionKeyword::Bottom, PositionKeyword::Center) => Some(
            Position(Coordinate::Center, Coordinate::End),
        ),
        (PositionKeyword::Center, PositionKeyword::Bottom) => Some(
            Position(Coordinate::Center, Coordinate::End),
        ),
        (PositionKeyword::Left, PositionKeyword::Percent(y)) => Some(
            Position(Coordinate::Start, Coordinate::Percent(y.clone())),
        ),
        (PositionKeyword::Center, PositionKeyword::Percent(y)) => Some(
            Position(Coordinate::Center, Coordinate::Percent(y.clone())),
        ),
        (PositionKeyword::Right, PositionKeyword::Percent(y)) => Some(
            Position(Coordinate::End, Coordinate::Percent(y.clone())),
        ),
        (PositionKeyword::Percent(x), PositionKeyword::Top) => Some(
            Position(Coordinate::Percent(x.clone()), Coordinate::Start),
        ),
        (PositionKeyword::Percent(x), PositionKeyword::Center) => Some(
            Position(Coordinate::Percent(x.clone()), Coordinate::Center),
        ),
        (PositionKeyword::Percent(x), PositionKeyword::Bottom) => Some(
            Position(Coordinate::Percent(x.clone()), Coordinate::End),
        ),
        (PositionKeyword::Percent(x), PositionKeyword::Percent(y)) => Some(
            Position(Coordinate::Percent(x.clone()), Coordinate::Percent(y.clone())),
        ),
        _ => None,
    }
}

fn parse_three(a: &PositionKeyword, b: &PositionKeyword, c: &PositionKeyword) -> (r: Option<
    Position,
>)
    ensures
        r.deep_view() == resolve_three(a.deep_view(), b.deep_view(), c.deep_view()),
{
    match (a, b, c) {
        (PositionKeyword::Left, PositionKeyword::Percent(x), PositionKeyword::Top) => Some(
            Position(Coordinate::Percent(x.clone()), Coordinate::Start),
        ),
        (PositionKeyword::Left, PositionKeyword::Percent(x), PositionKeyword::Center) => Some(
            Position(Coordinate::Percent(x.clone()), Coordinate::Center),
        ),
        (PositionKeyword::Left, PositionKeyword::Percent(x), PositionKeyword::Bottom) => Some(
            Position(Coordinate::Percent(x.clone()), Coordinate::End),
        ),
        (PositionKeyword::Right, PositionKeyword::Percent(x), PositionKeyword::Top) => Some(
            Position(Coordinate::PercentFromEnd(x.clone()), Coordinate::Start),
        ),
        (PositionKeyword::Right, PositionKeyword::Percent(x), PositionKeyword::Center) => Some(
            Position(Coordinate::PercentFromEnd(x.clone()), Coordinate::Center),
        ),
        (PositionKeyword::Right, PositionKeyword::Percent(x), PositionKeyword::Bottom) => Some(
            Position(Coordinate::PercentFromEnd(x.clone()), Coordinate::End),
        ),
        (PositionKeyword::Top, PositionKeyword::Percent(y), PositionKeyword::Left) => Some(
            Position(Coordinate::Start, Coordinate::Percent(y.clone())),
        ),
        (PositionKeyword::Top, PositionKeyword::Percent(y), PositionKeyword::Center) => Some(
            Position(Coordinate::Center, Coordinate::Percent(y.clone())),
        ),
        (PositionKeyword::Top, PositionKeyword::Percent(y), PositionKeyword::Right) => Some(
            Position(Coordinate::End, Coordinate::Percent(y.clone())),
        ),
        (PositionKeyword::Bottom, PositionKeyword::Percent(y), PositionKeyword::Left) => Some(
            Position(Coordinate::Start, Coordinate::PercentFromEnd(y.clone())),
        ),
        (PositionKeyword::Bottom, PositionKeyword::Percent(y), PositionKeyword::Center) => Some(
            Position(Coordinate::Center, Coordinate::PercentFromEnd(y.clone())),
        ),
        (PositionKeyword::Bottom, PositionKeyword::Percent(y), PositionKeyword::Right) => Some(
            Position(Coordinate::End, Coordinate::PercentFromEnd(y.clone())),
        ),
        (PositionKeyword::Top, PositionKeyword::Left, PositionKeyword::Percent(x)) => Some(
            Position(Coordinate::Percent(x.clone()), Coordinate::Start),
        ),
        (PositionKeyword::Center, PositionKeyword::Left, PositionKeyword::Percent(x)) => Some(
            Position(Coordinate::Percent(x.clone()), Coordinate::Center),
        ),
        (PositionKeyword::Bottom, PositionKeyword::Left, PositionKeyword::Percent(x)) => Some(
            Position(Coordinate::Percent(x.clone()), Coordinate::End),
        ),
        (PositionKeyword::Top, PositionKeyword::Right, PositionKeyword::Percent(x)) => Some(
            Position(Coordinate::PercentFromEnd(x.clone()), Coordinate::Start),
        ),
        (PositionKeyword::Center, PositionKeyword::Right, PositionKeyword::Percent(x)) => Some(
            Position(Coordinate::PercentFromEnd(x.clone()), Coordinate::Center),
        ),
        (PositionKeyword::Bottom, PositionKeyword::Right, PositionKeyword::Percent(x)) => Some(
            Position(Coordinate::PercentFromEnd(x.clone()), Coordinate::End),
        ),
        (PositionKeyword::Left, PositionKeyword::Top, PositionKeyword::Percent(y)) => Some(
            Position(Coordinate::Start, Coordinate::Percent(y.clone())),
        ),
        (PositionKeyword::Center, PositionKeyword::Top, PositionKeyword::Percent(y)) => Some(
            Position(Coordinate::Center, Coordinate::Percent(y.clone())),
        ),
        (PositionKeyword::Right, PositionKeyword::Top, PositionKeyword::Percent(y)) => Some(
            Position(Coordinate::End, Coordinate::Percent(y.clone())),
        ),
        (PositionKeyword::Left, PositionKeyword::Bottom, PositionKeyword::Percent(y)) => Some(
            Position(Coordinate::Start, Coordinate::PercentFromEnd(y.clone())),
        ),
        (PositionKeyword::Center, PositionKeyword::Bottom, PositionKeyword::Percent(y)) => Some(
            Position(Coordinate::Center, Coordinate::PercentFromEnd(y.clone())),
        ),
        (PositionKeyword::Right, PositionKeyword::Bottom, PositionKeyword::Percent(y)) => Some(
            Position(Coordinate::End, Coordinate::PercentFromEnd(y.clone())),
        ),
        _ => None,
    }
}

fn parse_four(
    a: &PositionKeyword,
    b: &PositionKeyword,
    c: &PositionKeyword,
    d: &PositionKeyword,
) -> (r: Option<Position>)
    ensures
        r.deep_view() == resolve_four(a.deep_view(), b.deep_view(), c.deep_view(), d.deep_view()),
{
    match (a, b, c, d) {
        (
            PositionKeyword::Left,
            PositionKeyword::Percent(x),
            PositionKeyword::Top,
            PositionKeyword::Percent(y),
        ) => Some(Position(Coordinate::Percent(x.clone()), Coordinate::Percent(y.clone()))),
        (
            PositionKeyword::Top,
            PositionKeyword::Percent(y),
            PositionKeyword::Left,
            PositionKeyword::Percent(x),
        ) => Some(Position(Coordinate::Percent(x.clone()), Coordinate::Percent(y.clone()))),
        (
            PositionKeyword::Left,
            PositionKeyword::Percent(x),
            PositionKeyword::Bottom,
            PositionKeyword::Percent(y),
        ) => Some(Position(Coordinate::Percent(x.clone()), Coordinate::PercentFromEnd(y.clone()))),
        (
            PositionKeyword::Bottom,
            PositionKeyword::Percent(y),
            PositionKeyword::Left,
            PositionKeyword::Percent(x),
        ) => Some(Position(Coordinate::Percent(x.clone()), Coordinate::PercentFromEnd(y.clone()))),
        (
            PositionKeyword::Right,
            PositionKeyword::Percent(x),
            PositionKeyword::Top,
            PositionKeyword::Percent(y),
        ) => Some(Position(Coordinate::PercentFromEnd(x.clone()), Coordinate::Percent(y.clone()))),
        (
            PositionKeyword::Top,
            PositionKeyword::Percent(y),
            PositionKeyword::Right,
            PositionKeyword::Percent(x),
        ) => Some(Position(Coordinate::PercentFromEnd(x.clone()), Coordinate::Percent(y.clone()))),
        (
            PositionKeyword::Right,
            PositionKeyword::Percent(x),
            PositionKeyword::Bottom,
            PositionKeyword::Percent(y),
        ) => Some(
            Position(Coordinate::PercentFromEnd(x.clone()), Coordinate::PercentFromEnd(y.clone())),
        ),
        (
            PositionKeyword::Bottom,
            PositionKeyword::Percent(y),
            PositionKeyword::Right,
            PositionKeyword::Percent(x),
        ) => Some(
            Position(Coordinate::PercentFromEnd(x.clone()), Coordinate::PercentFromEnd(y.clone())),
        ),
        _ => None,
    }
}

/// Reads a run of keywords as a place: the run is looked up, by its length,
/// in the table of the runs that the grammar accepts.
pub fn parse_position(input: &[PositionKeyword]) -> (r: Option<Position>)
    ensures
        r.deep_view() == resolve_position(input.deep_view()),
{
    match input.len() {
        0 => Some(Position(Coordinate::Start, Coordinate::Start)),
        1 => parse_one(&input[0]),
        2 => parse_two(&input[0], &input[1]),
        3 => parse_three(&input[0], &input[1], &input[2]),
        4 => parse_four(&input[0], &input[1], &input[2], &input[3]),
        _ => None,
    }
}

/// Two keywords say the same place in either order, where neither is a
/// percentage: they say one, the same, or none at all.
pub proof fn lemma_keywords_commute(a: PositionKeywordView, b: PositionKeywordView)
    requires
        !(a is Percent),
        !(b is Percent),
    ensures
        resolve_position(seq![a, b]) == resolve_position(seq![b, a]),
{
}

/// A keyword with its distance and another keyword say the same place
/// whichever of the two comes first: `left 20% top` is `top left 20%`.
pub proof fn lemma_inset_commutes(a: PositionKeywordView, p: Seq<char>, b: PositionKeywordView)
    ensures
        resolve_position(seq![a, PositionKeywordView::Percent(p), b]) == resolve_position(
            seq![b, a, PositionKeywordView::Percent(p)],
        ),
{
}

/// Two keywords, each with its distance, say the same place in either order:
/// `left 20% top 30%` is `top 30% left 20%`.
pub proof fn lemma_insets_commute(
    a: PositionKeywordView,
    p: Seq<char>,
    b: PositionKeywordView,
    q: Seq<char>,
)
    ensures
        resolve_position(
            seq![a, PositionKeywordView::Percent(p), b, PositionKeywordView::Percent(q)],
        ) == resolve_position(
            seq![b, PositionKeywordView::Percent(q), a, PositionKeywordView::Percent(p)],
        ),
{
}

/// A percentage binds to the edge before it: none may stand first where a
/// keyword of the other axis follows it and an edge comes last, and no run of
/// more than four words says a place.
pub proof fn lemma_rejected(input: Seq<PositionKeywordView>)
    ensures
        input.len() > 4 ==> resolve_position(input) is None,
        input.len() == 2 && input[0] is Percent && is_side(input[1]) ==> resolve_position(input)
            is None,
        input.len() == 2 && is_end(input[0]) && input[1] is Percent ==> resolve_position(input)
            is None,
        input.len() == 3 && !(input[1] is Percent) && !(input[2] is Percent) ==> resolve_position(
            input,
        ) is None,
{
}

} // verus!
