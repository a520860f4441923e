//! The words that time and ease a transition or an animation.

use vstd::prelude::*;
use crate::duration::Duration;
use crate::easing::{curve, EasingFunction};
use crate::number::{decimal, parse_decimal};
use crate::text::{chars_of, str_eq};

verus! {

/// The span of time that a word of the form `<N>ms` or `<N>s` writes, where
/// `<N>` is a decimal count.
pub open spec fn time_literal(word: Seq<char>) -> Option<Duration> {
    let n = word.len() as int;
    if n >= 2 && word[n - 2] == 'm' && word[n - 1] == 's' {
        match decimal(word.take(n - 2)) {
            Some(millis) => Some(Duration { millis: millis as u128 }),
            None => None,
        }
    } else if n >= 1 && word[n - 1] == 's' {
        match decimal(word.take(n - 1)) {
            Some(secs) => Some(Duration { millis: (secs * 1000) as u128 }),
            None => None,
        }
    } else {
        None
    }
}

/// Reads a span of time.
pub fn parse_time(time: &str) -> (r: Option<Duration>)
    ensures
        r == time_literal(time@),
{
    let chars = chars_of(time);
    let n = chars.len();
    if n >= 2 && chars[n - 2] == 'm' && chars[n - 1] == 's' {
        let count = vstd::slice::slice_subrange(chars.as_slice(), 0, n - 2);
        assert(count@ == chars@.take(n - 2));
        match parse_decimal(count) {
            Some(millis) => Some(Duration::from_millis(millis)),
            None => None,
        }
    } else if n >= 1 && chars[n - 1] == 's' {
        let count = vstd::slice::slice_subrange(chars.as_slice(), 0, n - 1);
        assert(count@ == chars@.take(n - 1));
        match parse_decimal(count) {
            Some(secs) => Some(Duration::from_secs(secs)),
            None => None,
        }
    } else {
        None
    }
}

/// The easing curve that a word names, if any.
pub open spec fn easing_name(word: Seq<char>) -> Option<EasingFunction> {
    if word == "linear"@ {
        Some(EasingFunction::Linear)
    } else if word == "ease"@ {
        Some(EasingFunction::CubicBezier(curve(25, 10, 25, 100)))
    } else if word == "ease-in"@ {
        Some(EasingFunction::CubicBezier(curve(42, 0, 100, 100)))
    } else if word == "ease-out"@ {
        Some(EasingFunction::CubicBezier(curve(0, 0, 58, 100)))
    } else if word == "ease-in-out"@ {
        Some(EasingFunction::CubicBezier(curve(42, 0, 58, 100)))
    } else if word == "step-start"@ {
        Some(EasingFunction::StepStart)
    } else if word == "step-end"@ {
        Some(EasingFunction::StepEnd)
    } else {
        None
    }
}

/// Reads the name of an easing curve.
pub fn parse_easing(easing: &str) -> (r: Option<EasingFunction>)
    ensures
        r == easing_name(easing@),
{
    if str_eq(easing, "linear") {
        Some(EasingFunction::linear())
    } else if str_eq(easing, "ease") {
        Some(EasingFunction::ease())
    } else if str_eq(easing, "ease-in") {
        Some(EasingFunction::ease_in())
    } else if str_eq(easing, "ease-out") {
        Some(EasingFunction::ease_out())
    } else if str_eq(easing, "ease-in-out") {
        Some(EasingFunction::ease_in_out())
    } else if str_eq(easing, "step-start") {
        Some(EasingFunction::step_start())
    } else if str_eq(easing, "step-end") {
        Some(EasingFunction::step_end())
    } else {
        None
    }
}

} // verus!
