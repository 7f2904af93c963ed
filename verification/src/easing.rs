//! The easing generator: a cubic bezier timing curve built from two control
//! points, evaluated by numerically inverting the parametric x-coordinate.
//! All coordinates are in `UNIT` fixed point.

use vstd::prelude::*;

use crate::angle::{div_trunc, lemma_udiv_bound};
use crate::UNIT;

verus! {

/// The largest control-point height the generator accepts (one million in
/// real units): it keeps every intermediate product inside `i64`.
pub const CONTROL_LIMIT: i64 = 1_000_000_000_000;

/// Why a timing curve could not be built.
#[derive(Clone, Copy, PartialEq, Eq, Structural, Debug)]
pub enum BezierError {
    InvalidControlPoint,
}

impl BezierError {
    /// A human-readable description of the error.
    pub fn message(&self) -> (r: &'static str)
        ensures
            r@ == "Control points must be in the range [0, 1]"@,
    {
        "Control points must be in the range [0, 1]"
    }
}

/// An immutable cubic timing curve through (0,0), (x1,y1), (x2,y2), (1,1).
#[derive(Clone, Copy, PartialEq, Eq, Structural, Debug)]
pub struct AnimationCurve {
    pub x1: i64,
    pub y1: i64,
    pub x2: i64,
    pub y2: i64,
}

impl AnimationCurve {
    /// The control x-coordinates lie in `[0, 1]` and the heights within the
    /// generator's limit.
    pub open spec fn well_formed(self) -> bool {
        0 <= self.x1 <= UNIT && 0 <= self.x2 <= UNIT && -CONTROL_LIMIT <= self.y1 <= CONTROL_LIMIT
            && -CONTROL_LIMIT <= self.y2 <= CONTROL_LIMIT
    }

    /// A curve whose control points coincide evaluates as the identity.
    pub open spec fn is_linear(self) -> bool {
        self.x1 == self.y1 && self.x2 == self.y2
    }
}

/// Linear interpolation between `p` and `q` at parameter `t` (in `UNIT`
/// fixed point), truncated toward zero.
pub open spec fn spec_lerp(p: int, q: int, t: int) -> int {
    p + div_trunc((q - p) * t, UNIT as int)
}

fn lerp(t: i64, p: i64, q: i64) -> (r: i64)
    requires
        0 <= t <= UNIT,
        -2_000_000_000_000 <= p <= 2_000_000_000_000,
        -2_000_000_000_000 <= q <= 2_000_000_000_000,
    ensures
        r == spec_lerp(p as int, q as int, t as int),
        p <= q ==> p <= r <= q,
        q <= p ==> q <= r <= p,
{
    let d = q - p;
    if d >= 0 {
        proof {
            assert(0 <= d * t <= 4_000_000_000_000_000_000 && d * t <= 1_000_000 * d)
                by (nonlinear_arith)
                requires
                    0 <= d <= 4_000_000_000_000i64,
                    0 <= t <= 1_000_000,
            ;
        }
        let step = ((d as u64) * (t as u64)) / 1_000_000;
        proof {
            lemma_udiv_bound(d * t, 1_000_000, d as int);
        }
        p + (step as i64)
    } else {
        proof {
            assert(0 <= (-d) * t <= 4_000_000_000_000_000_000 && (-d) * t <= 1_000_000 * (-d))
                by (nonlinear_arith)
                requires
                    0 < -d <= 4_000_000_000_000i64,
                    0 <= t <= 1_000_000,
            ;
            assert((-d) * t == -(d * t)) by (nonlinear_arith);
        }
        let step = (((-d) as u64) * (t as u64)) / 1_000_000;
        proof {
            lemma_udiv_bound((-d) * t, 1_000_000, (-d) as int);
        }
        p - (step as i64)
    }
}

/// The x-coordinate of the cubic bezier at parameter `t`, with endpoint
/// x-coordinates 0 and 1, by de Casteljau's three levels of interpolation.
pub open spec fn spec_casteljau_x(x1: int, x2: int, t: int) -> int {
    let q1 = spec_lerp(0, x1, t);
    let q2 = spec_lerp(x1, x2, t);
    let q3 = spec_lerp(x2, UNIT as int, t);
    let r1 = spec_lerp(q1, q2, t);
    let r2 = spec_lerp(q2, q3, t);
    spec_lerp(r1, r2, t)
}

/// The y-coordinate of the cubic bezier at parameter `t`, with endpoint
/// y-coordinates 0 and 1.
pub open spec fn spec_casteljau_y(y1: int, y2: int, t: int) -> int {
    let q1 = spec_lerp(0, y1, t);
    let q2 = spec_lerp(y1, y2, t);
    let q3 = spec_lerp(y2, UNIT as int, t);
    let r1 = spec_lerp(q1, q2, t);
    let r2 = spec_lerp(q2, q3, t);
    spec_lerp(r1, r2, t)
}

/// Evaluates the bezier at parameter `t`, returning `(x, y)`.
fn de_casteljau(t: i64, x1: i64, y1: i64, x2: i64, y2: i64) -> (r: (i64, i64))
    requires
        0 <= t <= UNIT,
        0 <= x1 <= UNIT,
        0 <= x2 <= UNIT,
        -CONTROL_LIMIT <= y1 <= CONTROL_LIMIT,
        -CONTROL_LIMIT <= y2 <= CONTROL_LIMIT,
    ensures
        r.0 == spec_casteljau_x(x1 as int, x2 as int, t as int),
        r.1 == spec_casteljau_y(y1 as int, y2 as int, t as int),
        0 <= r.0 <= UNIT,
        -CONTROL_LIMIT <= r.1 <= CONTROL_LIMIT,
{
    let q1x = lerp(t, 0, x1);
    let q2x = lerp(t, x1, x2);
    let q3x = lerp(t, x2, UNIT);
    let r1x = lerp(t, q1x, q2x);
    let r2x = lerp(t, q2x, q3x);
    let x = lerp(t, r1x, r2x);
    let q1y = lerp(t, 0, y1);
    let q2y = lerp(t, y1, y2);
    let q3y = lerp(t, y2, UNIT);
    let r1y = lerp(t, q1y, q2y);
    let r2y = lerp(t, q2y, q3y);
    let y = lerp(t, r1y, r2y);
    (x, y)
}

/// Builds a timing curve from two control points; fails when a control
/// x-coordinate leaves `[0, 1]`.
pub fn bezier(x1: i64, y1: i64, x2: i64, y2: i64) -> (r: Result<AnimationCurve, BezierError>)
    requires
        -CONTROL_LIMIT <= y1 <= CONTROL_LIMIT,
        -CONTROL_LIMIT <= y2 <= CONTROL_LIMIT,
    ensures
        r is Ok <==> (0 <= x1 <= UNIT && 0 <= x2 <= UNIT),
        r matches Ok(c) ==> c == (AnimationCurve { x1, y1, x2, y2 }) && c.well_formed(),
        r is Err ==> r == Err::<AnimationCurve, BezierError>(BezierError::InvalidControlPoint),
{
    if !(0 <= x1 && x1 <= UNIT) || !(0 <= x2 && x2 <= UNIT) {
        return Err(BezierError::InvalidControlPoint);
    }
    Ok(AnimationCurve { x1, y1, x2, y2 })
}

impl AnimationCurve {
    /// The curve's height at horizontal position `x`.
    ///
    /// A linear curve and the endpoints return `x` unchanged. Otherwise the
    /// parameter whose x-coordinate meets `x` is found by binary
    /// subdivision (up to ten probes, stopping when the horizontal residual
    /// drops under one ten-thousandth), and the height at that parameter is
    /// returned.
    pub fn evaluate(&self, x: i64) -> (r: i64)
        requires
            self.well_formed(),
            0 <= x <= UNIT,
        ensures
            self.is_linear() ==> r == x,
            x == 0 ==> r == 0,
            x == UNIT ==> r == UNIT,
            !self.is_linear() && 0 < x < UNIT ==> r == spec_casteljau_y(
                self.y1 as int,
                self.y2 as int,
                spec_search_t(self.x1 as int, self.x2 as int, x as int, 0, UNIT as int, x as int, 10),
            ),
            -CONTROL_LIMIT <= r <= CONTROL_LIMIT,
    {
        if self.x1 == self.y1 && self.x2 == self.y2 {
            return x;
        }
        if x == 0 || x == UNIT {
            return x;
        }
        let ghost target_t = spec_search_t(
            self.x1 as int,
            self.x2 as int,
            x as int,
            0,
            UNIT as int,
            x as int,
            10,
        );
        let mut t0: i64 = 0;
        let mut t1: i64 = UNIT;
        let mut t: i64 = x;
        let mut i: u32 = 0;
        while i < 9
            invariant
                self.well_formed(),
                !self.is_linear(),
                0 < x < UNIT,
                target_t == spec_search_t(
                    self.x1 as int,
                    self.x2 as int,
                    x as int,
                    0,
                    UNIT as int,
                    x as int,
                    10,
                ),
                0 <= t0 <= UNIT,
                0 <= t1 <= UNIT,
                0 <= t <= UNIT,
                i <= 9,
                target_t == spec_search_t(
                    self.x1 as int,
                    self.x2 as int,
                    x as int,
                    t0 as int,
                    t1 as int,
                    t as int,
                    (10 - i) as nat,
                ),
            decreases 9 - i,
        {
            let p = de_casteljau(t, self.x1, self.y1, self.x2, self.y2);
            let err = x - p.0;
            let abs_err = if err >= 0 {
                err
            } else {
                -err
            };
            if abs_err < 100 {
                proof {
                    assert(target_t == t as int);
                }
                return p.1;
            }
            if err > 0 {
                t0 = t;
            } else {
                t1 = t;
            }
            t = (((t0 as u64) + (t1 as u64)) / 2) as i64;
            i = i + 1;
        }
        proof {
            assert(target_t == t as int);
        }
        let p = de_casteljau(t, self.x1, self.y1, self.x2, self.y2);
        p.1
    }
}

/// The curve a configured pair of control points yields: the configured
/// cubic where the points are acceptable, and the identity curve where they
/// are missing or out of range (an invalid easing configuration degrades to
/// the default curve, it never fails the border).
pub open spec fn spec_effective_curve(params: Option<crate::config::AnimationParams>) -> AnimationCurve {
    match params {
        None => AnimationCurve { x1: 0, y1: 0, x2: UNIT, y2: UNIT },
        Some(p) => if 0 <= p.x1 <= UNIT && 0 <= p.x2 <= UNIT && -CONTROL_LIMIT <= p.y1
            <= CONTROL_LIMIT && -CONTROL_LIMIT <= p.y2 <= CONTROL_LIMIT {
            AnimationCurve { x1: p.x1, y1: p.y1, x2: p.x2, y2: p.y2 }
        } else {
            AnimationCurve { x1: 0, y1: 0, x2: UNIT, y2: UNIT }
        },
    }
}

/// The parameter at which the subdivision's last probe lands: starting from
/// the bracket `[t0, t1]` and the probe `t`, the bracket is halved toward
/// `x` until the probe's x-residual falls under one ten-thousandth or the
/// probes run out.
pub open spec fn spec_search_t(
    x1: int,
    x2: int,
    x: int,
    t0: int,
    t1: int,
    t: int,
    probes: nat,
) -> int
    decreases probes,
{
    if probes <= 1 {
        t
    } else {
        let err = x - spec_casteljau_x(x1, x2, t);
        if -100 < err < 100 {
            t
        } else {
            let n0 = if err > 0 {
                t
            } else {
                t0
            };
            let n1 = if err > 0 {
                t1
            } else {
                t
            };
            spec_search_t(x1, x2, x, n0, n1, (n0 + n1) / 2, (probes - 1) as nat)
        }
    }
}

} // verus!
