//! The grammar of sizes: from a run of keywords to a [`Size`].

use vstd::prelude::*;
use crate::location::{percent_literal, Percent, Size, SizeView};
use crate::text::str_eq;

verus! {

/// A word of the grammar of sizes.
#[derive(Debug, PartialEq, Eq)]
pub enum SizeKeyword {
    Contain,
    Cover,
    Fill,
    Auto,
    Percent(Percent),
}

/// What a [`SizeKeyword`] holds.
pub enum SizeKeywordView {
    Contain,
    Cover,
    Fill,
    Auto,
    Percent(Seq<char>),
}

impl DeepView for SizeKeyword {
    type V = SizeKeywordView;

    open spec fn deep_view(&self) -> SizeKeywordView {
        match self {
            SizeKeyword::Contain => SizeKeywordView::Contain,
            SizeKeyword::Cover => SizeKeywordView::Cover,
            SizeKeyword::Fill => SizeKeywordView::Fill,
            SizeKeyword::Auto => SizeKeywordView::Auto,
            SizeKeyword::Percent(p) => SizeKeywordView::Percent(p@),
        }
    }
}

impl Clone for SizeKeyword {
    fn clone(&self) -> (r: Self)
        ensures
            r == *self,
    {
        match self {
            SizeKeyword::Contain => SizeKeyword::Contain,
            SizeKeyword::Cover => SizeKeyword::Cover,
            SizeKeyword::Fill => SizeKeyword::Fill,
            SizeKeyword::Auto => SizeKeyword::Auto,
            SizeKeyword::Percent(p) => SizeKeyword::Percent(p.clone()),
        }
    }
}

/// The keyword that a word writes, if any.
pub open spec fn size_keyword(word: Seq<char>) -> Option<SizeKeywordView> {
    if word == "contain"@ {
        Some(SizeKeywordView::Contain)
    } else if word == "cover"@ {
        Some(SizeKeywordView::Cover)
    } else if word == "fill"@ {
        Some(SizeKeywordView::Fill)
    } else if word == "auto"@ {
        Some(SizeKeywordView::Auto)
    } else {
        match percent_literal(word) {
            Some(p) => Some(SizeKeywordView::Percent(p)),
            None => None,
        }
    }
}

/// Reads one word of the grammar of sizes.
pub fn parse_size_keyword(param: &str) -> (r: Option<SizeKeyword>)
    ensures
        r.deep_view() == size_keyword(param@),
{
    if str_eq(param, "contain") {
        Some(SizeKeyword::Contain)
    } else if str_eq(param, "cover") {
        Some(SizeKeyword::Cover)
    } else if str_eq(param, "fill") {
        Some(SizeKeyword::Fill)
    } else if str_eq(param, "auto") {
        Some(SizeKeyword::Auto)
    } else {
        match Percent::parse(param) {
            Some(p) => Some(SizeKeyword::Percent(p)),
            None => None,
        }
    }
}

/// Whether a word is one of the grammar of sizes.
pub fn is_size_keyword(word: &str) -> (r: bool)
    ensures
        r == size_keyword(word@).is_some(),
{
    parse_size_keyword(word).is_some()
}

/// Whether a word has the form `<N>%`.
pub fn is_percentage(word: &str) -> (r: bool)
    ensures
        r == percent_literal(word@).is_some(),
{
    Percent::parse(word).is_some()
}

/// The extent that a keyword fixes along one side, if it speaks of one side:
/// `auto` fixes none, a percentage fixes itself.
pub open spec fn extent(k: SizeKeywordView) -> Option<Option<Seq<char>>> {
    match k {
        SizeKeywordView::Auto => Some(None),
        SizeKeywordView::Percent(p) => Some(Some(p)),
        _ => None,
    }
}

/// The size with the given width and height, where either may be left open.
pub open spec fn sized(width: Option<Seq<char>>, height: Option<Seq<char>>) -> SizeView {
    match (width, height) {
        (None, None) => SizeView::Contain,
        (Some(w), None) => SizeView::FixedWidth(w),
        (None, Some(h)) => SizeView::FixedHeight(h),
        (Some(w), Some(h)) => SizeView::Fixed(w, h),
    }
}

/// The size that a run of keywords says, if the run is one that the grammar
/// accepts: nothing, one of the keywords that stand alone, a width, or a width
/// and a height.
pub open spec fn resolve_size(input: Seq<SizeKeywordView>) -> Option<SizeView> {
    if input.len() == 0 {
        Some(SizeView::Contain)
    } else if input.len() == 1 {
        match input[0] {
            SizeKeywordView::Contain => Some(SizeView::Contain),
            SizeKeywordView::Cover => Some(SizeView::Cover),
            SizeKeywordView::Fill => Some(SizeView::Fixed("100"@, "100"@)),
            k => Some(sized(extent(k).unwrap(), None)),
        }
    } else if input.len() == 2 {
        match (extent(input[0]), extent(input[1])) {
            (Some(w), Some(h)) => Some(sized(w, h)),
            _ => None,
        }
    } else {
        None
    }
}

/// Reads a run of keywords as a size.
pub fn parse_size(input: &[SizeKeyword]) -> (r: Option<Size>)
    ensures
        r.deep_view() == resolve_size(input.deep_view()),
{
    match input.len() {
        0 => Some(Size::Contain),
        1 => {
            match &input[0] {
                SizeKeyword::Contain => Some(Size::Contain),
                SizeKeyword::Cover => Some(Size::Cover),
                SizeKeyword::Fill => Some(Size::Fixed(Percent::full(), Percent::full())),
                SizeKeyword::Auto => Some(Size::Contain),
                SizeKeyword::Percent(w) => Some(Size::FixedWidth(w.clone())),
            }
        },
        2 => {
            match (&input[0], &input[1]) {
                (SizeKeyword::Auto, SizeKeyword::Auto) => Some(Size::Contain),
                (SizeKeyword::Auto, SizeKeyword::Percent(h)) => Some(Size::FixedHeight(h.clone())),
                (SizeKeyword::Percent(w), SizeKeyword::Auto) => Some(Size::FixedWidth(w.clone())),
                (SizeKeyword::Percent(w), SizeKeyword::Percent(h)) => Some(
                    Size::Fixed(w.clone(), h.clone()),
                ),
                _ => None,
            }
        },
        _ => None,
    }
}

} // verus!
