//! Easing curves: how progress through a transition is shaped.

use vstd::prelude::*;

verus! {

/// The number that stands for one in the coordinates of control points and in
/// the coefficients of a curve: both are counted in hundredths.
pub const UNIT: i64 = 100;

/// A named easing curve.
#[derive(Clone, Copy, Debug, PartialEq, Eq, Structural)]
pub enum EasingFunction {
    /// Progress as it is.
    Linear,
    /// All of the progress at the start.
    StepStart,
    /// All of the progress at the end.
    StepEnd,
    /// A cubic Bezier curve from `(0, 0)` to `(1, 1)`.
    CubicBezier(CubicBezier),
}

/// A cubic Bezier curve from `(0, 0)` to `(1, 1)`, held as the coefficients of
/// its two polynomials: `x(t) = ((ax t + bx) t + cx) t`, and `y(t)` likewise.
#[derive(Clone, Copy, Debug, PartialEq, Eq, Structural)]
pub struct CubicBezier {
    pub ax: i64,
    pub bx: i64,
    pub cx: i64,
    pub ay: i64,
    pub by: i64,
    pub cy: i64,
}

/// The coefficients of one coordinate of the curve whose two inner control
/// points have the coordinates `first` and `second`, highest power first.
pub open spec fn coefficients(first: int, second: int) -> (int, int, int) {
    let c = 3 * first;
    let b = 3 * (second - first) - c;
    let a = UNIT - c - b;
    (a, b, c)
}

/// The curve with the inner control points `(x1, y1)` and `(x2, y2)`.
pub open spec fn curve(x1: int, y1: int, x2: int, y2: int) -> CubicBezier {
    CubicBezier {
        ax: coefficients(x1, x2).0 as i64,
        bx: coefficients(x1, x2).1 as i64,
        cx: coefficients(x1, x2).2 as i64,
        ay: coefficients(y1, y2).0 as i64,
        by: coefficients(y1, y2).1 as i64,
        cy: coefficients(y1, y2).2 as i64,
    }
}

impl CubicBezier {
    /// The curve with the inner control points `(x1, y1)` and `(x2, y2)`,
    /// given in hundredths.
    pub fn new(x1: i32, y1: i32, x2: i32, y2: i32) -> (r: CubicBezier)
        ensures
            r == curve(x1 as int, y1 as int, x2 as int, y2 as int),
            r.cx == 3 * x1,
            r.bx == 3 * (x2 - x1) - r.cx,
            r.ax == UNIT - r.cx - r.bx,
            r.cy == 3 * y1,
            r.by == 3 * (y2 - y1) - r.cy,
            r.ay == UNIT - r.cy - r.by,
    {
        let cx: i64 = 3 * (x1 as i64);
        let bx: i64 = 3 * (x2 as i64 - x1 as i64) - cx;
        let ax: i64 = UNIT - cx - bx;
        let cy: i64 = 3 * (y1 as i64);
        let by: i64 = 3 * (y2 as i64 - y1 as i64) - cy;
        let ay: i64 = UNIT - cy - by;
        CubicBezier { ax, bx, cx, ay, by, cy }
    }

    /// `x(t)` at `t = n / d`, times `d * d * d`.
    pub open spec fn sample_x(self, n: int, d: int) -> int {
        ((self.ax * n + self.bx * d) * n + self.cx * d * d) * n
    }

    /// `y(t)` at `t = n / d`, times `d * d * d`.
    pub open spec fn sample_y(self, n: int, d: int) -> int {
        ((self.ay * n + self.by * d) * n + self.cy * d * d) * n
    }
}

impl EasingFunction {
    pub fn linear() -> (r: Self)
        ensures
            r == EasingFunction::Linear,
    {
        EasingFunction::Linear
    }

    pub fn step_start() -> (r: Self)
        ensures
            r == EasingFunction::StepStart,
    {
        EasingFunction::StepStart
    }

    pub fn step_end() -> (r: Self)
        ensures
            r == EasingFunction::StepEnd,
    {
        EasingFunction::StepEnd
    }

    /// The curve `(.25, .1, .25, 1)`.
    pub fn ease() -> (r: Self)
        ensures
            r == EasingFunction::CubicBezier(curve(25, 10, 25, 100)),
    {
        Self::cubic_bezier(25, 10, 25, 100)
    }

    /// The curve `(.42, 0, 1, 1)`.
    pub fn ease_in() -> (r: Self)
        ensures
            r == EasingFunction::CubicBezier(curve(42, 0, 100, 100)),
    {
        Self::cubic_bezier(42, 0, 100, 100)
    }

    /// The curve `(0, 0, .58, 1)`.
    pub fn ease_out() -> (r: Self)
        ensures
            r == EasingFunction::CubicBezier(curve(0, 0, 58, 100)),
    {
        Self::cubic_bezier(0, 0, 58, 100)
    }

    /// The curve `(.42, 0, .58, 1)`.
    pub fn ease_in_out() -> (r: Self)
        ensures
            r == EasingFunction::CubicBezier(curve(42, 0, 58, 100)),
    {
        Self::cubic_bezier(42, 0, 58, 100)
    }

    /// The cubic Bezier curve with the inner control points `(x1, y1)` and
    /// `(x2, y2)`, given in hundredths.
    pub fn cubic_bezier(x1: i32, y1: i32, x2: i32, y2: i32) -> (r: Self)
        ensures
            r == EasingFunction::CubicBezier(curve(x1 as int, y1 as int, x2 as int, y2 as int)),
    {
        EasingFunction::CubicBezier(CubicBezier::new(x1, y1, x2, y2))
    }
}

impl DeepView for EasingFunction {
    type V = EasingFunction;

    open spec fn deep_view(&self) -> EasingFunction {
        *self
    }
}

/// Every curve that is built from control points starts at `(0, 0)` and ends
/// at `(1, 1)`: at `t = 0` both polynomials are zero, at `t = 1` both are one.
pub proof fn lemma_curve_endpoints(x1: i32, y1: i32, x2: i32, y2: i32)
    ensures
        curve(x1 as int, y1 as int, x2 as int, y2 as int).sample_x(0, 1) == 0,
        curve(x1 as int, y1 as int, x2 as int, y2 as int).sample_y(0, 1) == 0,
        curve(x1 as int, y1 as int, x2 as int, y2 as int).sample_x(1, 1) == UNIT,
        curve(x1 as int, y1 as int, x2 as int, y2 as int).sample_y(1, 1) == UNIT,
{
}

} // verus!
