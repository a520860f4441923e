//! Spans of time, counted in whole milliseconds.

use vstd::prelude::*;

verus! {

/// A span of time.
#[derive(Clone, Copy, Debug, PartialEq, Eq, Structural, Hash)]
pub struct Duration {
    /// The length of the span in milliseconds.
    pub millis: u128,
}

impl Duration {
    /// A span of `millis` milliseconds.
    pub fn from_millis(millis: u64) -> (r: Duration)
        ensures
            r.millis == millis,
    {
        Duration { millis: millis as u128 }
    }

    /// A span of `secs` seconds.
    pub fn from_secs(secs: u64) -> (r: Duration)
        ensures
            r.millis == secs * 1000,
    {
        Duration { millis: secs as u128 * 1000 }
    }

    /// The length of the span in milliseconds.
    pub fn as_millis(&self) -> (r: u128)
        ensures
            r == self.millis,
    {
        self.millis
    }
}

impl DeepView for Duration {
    type V = Duration;

    open spec fn deep_view(&self) -> Duration {
        *self
    }
}

} // verus!
