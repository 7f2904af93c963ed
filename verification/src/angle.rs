//! Gradient angles: parsing of `<number>deg` tokens and the closed-form
//! conversion of an angle into start/end coordinates inside the unit square.
//!
//! The angle is held in signed millidegrees. The conversion represents the
//! gradient axis as a line through the center of the unit square and
//! intersects it with the square, all in `UNIT` fixed point. The slope comes
//! from a rational approximation of the tangent that is exact on the axes
//! (0, 90, 180 and 270 degrees), so the cardinal directions come out exact.

use vstd::prelude::*;
use vstd::string::StringSliceAdditionalSpecFns;

use crate::{HALF_UNIT, UNIT};
use crate::text::{
    dec_val, dec_value_capped, digits_end, lemma_dec_val_nonneg, lemma_dec_val_upper,
    lemma_digit_run_all_digits, lemma_digits_end_bounds, lemma_ws_end_stop, scan_digits, scan_ws,
    scan_ws_back, ws_back, ws_end,
};

verus! {

/// A point of the unit square in `UNIT` fixed point.
#[derive(Clone, Copy, PartialEq, Eq, Structural, Debug)]
pub struct UnitPoint {
    pub x: i64,
    pub y: i64,
}

/// Start and end of a gradient axis, in unit-square coordinates.
#[derive(Clone, Copy, PartialEq, Eq, Structural, Debug)]
pub struct GradientCoordinates {
    pub start: UnitPoint,
    pub end: UnitPoint,
}

impl GradientCoordinates {
    /// Both points lie inside the unit square.
    pub open spec fn in_unit_square(self) -> bool {
        0 <= self.start.x <= UNIT && 0 <= self.start.y <= UNIT && 0 <= self.end.x <= UNIT && 0
            <= self.end.y <= UNIT
    }
}

/// The value of up to three fraction digits `s[from..to)`, in thousandths.
pub open spec fn frac3(s: Seq<u8>, from: int, to: int) -> int {
    let v = dec_val(s.subrange(from, to));
    if to - from <= 0 {
        0
    } else if to - from == 1 {
        v * 100
    } else if to - from == 2 {
        v * 10
    } else {
        v
    }
}

/// The signed decimal number `s[lo..hi)` in millidegrees, or `None` when it
/// is not of the form `[+-]? digits [. digits]` (with at least one digit, at
/// most three fraction digits, and at most nine integer digits).
pub open spec fn spec_number_millis(s: Seq<u8>, lo: int, hi: int) -> Option<int> {
    if !(0 <= lo < hi <= s.len()) {
        None
    } else {
        let neg = s[lo] == 45;
        let k = if s[lo] == 45 || s[lo] == 43 {
            lo + 1
        } else {
            lo
        };
        let ie = digits_end(s, k);
        if ie > hi {
            None
        } else {
            let iv = dec_val(s.subrange(k, ie));
            let frac: Option<int> = if ie == hi {
                if ie > k {
                    Some(0)
                } else {
                    None
                }
            } else if s[ie] == 46 {
                let fe = digits_end(s, ie + 1);
                if fe == hi && (ie > k || fe > ie + 1) && fe - (ie + 1) <= 3 {
                    Some(frac3(s, ie + 1, fe))
                } else {
                    None
                }
            } else {
                None
            };
            match frac {
                None => None,
                Some(f) => if iv > 999_999_999 {
                    None
                } else {
                    let v = iv * 1000 + f;
                    Some(
                        if neg {
                            -v
                        } else {
                            v
                        },
                    )
                },
            }
        }
    }
}

/// The millidegree value of an angle token: a decimal number, trimmed of
/// surrounding whitespace, followed by the literal suffix `deg`.
pub open spec fn spec_parse_angle(s: Seq<u8>) -> Option<int> {
    if s.len() < 4 || s[s.len() - 3] != 100 || s[s.len() - 2] != 101 || s[s.len() - 1] != 103 {
        None
    } else {
        let stop = s.len() - 3;
        spec_number_millis(s, ws_end(s, 0), ws_back(s, stop))
    }
}

/// Parses an angle token such as `90deg`, `-7.5deg` or ` 180 deg`.
pub fn parse_angle(s: &str) -> (r: Option<i64>)
    ensures
        r is Some <==> spec_parse_angle(s.spec_bytes()) is Some,
        r matches Some(v) ==> spec_parse_angle(s.spec_bytes()) == Some(v as int)
            && -1_000_000_000_000 <= v <= 1_000_000_000_000,
{
    let bytes = s.as_bytes();
    let n = bytes.len();
    if n < 4 {
        return None;
    }
    if !(bytes[n - 3] == 100 && bytes[n - 2] == 101 && bytes[n - 1] == 103) {
        return None;
    }
    let stop = n - 3;
    let lo = scan_ws(bytes, 0);
    proof {
        lemma_ws_end_stop(bytes@, 0, stop as int);
    }
    let hi = scan_ws_back(bytes, stop);
    if !(lo < hi) {
        return None;
    }
    let neg = bytes[lo] == 45;
    let k = if bytes[lo] == 45 || bytes[lo] == 43 {
        lo + 1
    } else {
        lo
    };
    let ie = scan_digits(bytes, k);
    proof {
        lemma_digits_end_bounds(bytes@, k as int);
        lemma_digit_run_all_digits(bytes@, k as int, ie as int);
    }
    if ie > hi {
        return None;
    }
    let iv = match dec_value_capped(bytes, k, ie, 1_000_000_000) {
        Some(v) => v,
        None => 0,
    };
    proof {
        lemma_dec_val_nonneg(bytes@.subrange(k as int, ie as int));
    }
    let f: u64;
    if ie == hi {
        if !(ie > k) {
            return None;
        }
        f = 0;
    } else {
        if bytes[ie] != 46 {
            return None;
        }
        let fe = scan_digits(bytes, ie + 1);
        proof {
            lemma_digits_end_bounds(bytes@, ie + 1);
            lemma_digit_run_all_digits(bytes@, ie + 1, fe as int);
        }
        if !(fe == hi && (ie > k || fe > ie + 1) && fe - (ie + 1) <= 3) {
            return None;
        }
        let flen = fe - (ie + 1);
        let fv = match dec_value_capped(bytes, ie + 1, fe, 999) {
            Some(v) => v,
            None => 0,
        };
        proof {
            lemma_dec_val_nonneg(bytes@.subrange(ie + 1, fe as int));
            lemma_dec_val_upper(bytes@.subrange(ie + 1, fe as int));
        }
        f = if flen == 0 {
            0
        } else if flen == 1 {
            fv * 100
        } else if flen == 2 {
            fv * 10
        } else {
            fv
        };
    }
    if iv > 999_999_999 {
        return None;
    }
    let v = iv * 1000 + f;
    if neg {
        Some(-(v as i64))
    } else {
        Some(v as i64)
    }
}

/// `a / d <= c` follows from `a <= d * c`.
pub(crate) proof fn lemma_udiv_bound(a: int, d: int, c: int)
    requires
        0 <= a,
        1 <= d,
        0 <= c,
        a <= d * c,
    ensures
        a / d <= c,
{
    vstd::arithmetic::div_mod::lemma_div_is_ordered(a, d * c, d);
    vstd::arithmetic::div_mod::lemma_div_multiples_vanish(c, d);
}

/// `1 <= a / d` follows from `d <= a`.
pub(crate) proof fn lemma_udiv_ge_one(a: int, d: int)
    requires
        1 <= d <= a,
    ensures
        1 <= a / d,
{
    vstd::arithmetic::div_mod::lemma_div_is_ordered(d, a, d);
    vstd::arithmetic::div_mod::lemma_div_multiples_vanish(1, d);
}

/// Bhaskara's rational sine approximation, in `UNIT` fixed point, for an
/// angle `t` in millidegrees within `[0, 180_000]`. It is exact at 0, 90 and
/// 180 degrees and within about a quarter percent elsewhere.
pub open spec fn spec_bha_sin(t: int) -> int {
    let p = t * (180_000 - t);
    4 * p * 1_000_000 / (40_500_000_000 - p)
}

fn bha_sin(t: u64) -> (r: u64)
    requires
        t <= 180_000,
    ensures
        r == spec_bha_sin(t as int),
        r <= 1_000_000,
        1 <= t <= 179_999 ==> 1 <= r,
{
    proof {
        assert((t - 90_000) * (t - 90_000) >= 0) by (nonlinear_arith);
        assert(t * (180_000 - t) == 8_100_000_000 - (t - 90_000) * (t - 90_000))
            by (nonlinear_arith);
        if 1 <= t <= 179_999 {
            assert((t - 1) * (179_999 - t) >= 0) by (nonlinear_arith)
                requires
                    1 <= t <= 179_999,
            ;
            assert(t * (180_000 - t) == 179_999 + (t - 1) * (179_999 - t)) by (nonlinear_arith);
        }
    }
    let p = t * (180_000 - t);
    let num = 4 * p * 1_000_000;
    let den = 40_500_000_000 - p;
    let r = num / den;
    proof {
        lemma_udiv_bound(num as int, den as int, 1_000_000);
        if 1 <= t <= 179_999 {
            lemma_udiv_ge_one(num as int, den as int);
        }
    }
    r
}

/// The tangent of `t` millidegrees in `UNIT` fixed point, for
/// `t` in `[0, 180_000)` away from 90 degrees; the sign follows the real
/// tangent (negative on `(90, 180)` degrees).
pub open spec fn spec_tan(t: int) -> int {
    if t < 90_000 {
        spec_bha_sin(t) * 1_000_000 / spec_bha_sin(t + 90_000)
    } else {
        -(spec_bha_sin(t) * 1_000_000 / spec_bha_sin(t - 90_000))
    }
}

fn tan_fp(t: u64) -> (r: i64)
    requires
        t < 180_000,
        t != 90_000,
    ensures
        r == spec_tan(t as int),
        -1_000_000_000_000 <= r <= 1_000_000_000_000,
{
    let s = bha_sin(t);
    if t < 90_000 {
        let c = bha_sin(t + 90_000);
        let q = (s * 1_000_000) / c;
        proof {
            lemma_udiv_bound((s * 1_000_000) as int, c as int, 1_000_000_000_000);
        }
        q as i64
    } else {
        let c = bha_sin(t - 90_000);
        let q = (s * 1_000_000) / c;
        proof {
            lemma_udiv_bound((s * 1_000_000) as int, c as int, 1_000_000_000_000);
        }
        -(q as i64)
    }
}

/// The y-intercept that puts the line of slope `m` through the center of
/// the unit square: `(UNIT - m) / 2`, truncated toward zero.
pub open spec fn spec_intercept(m: int) -> int {
    if m <= UNIT {
        (UNIT - m) / 2
    } else {
        -((m - UNIT) / 2)
    }
}

fn intercept(m: i64) -> (b: i64)
    requires
        -1_000_000_000_000 <= m <= 1_000_000_000_000,
    ensures
        b == spec_intercept(m as int),
        -500_000_000_000 <= b <= 500_000_500_000,
{
    if m <= UNIT {
        (((UNIT - m) as u64) / 2) as i64
    } else {
        -((((m - UNIT) as u64) / 2) as i64)
    }
}

/// Integer division truncated toward zero (`b` positive).
pub open spec fn div_trunc(a: int, b: int) -> int {
    if a >= 0 {
        a / b
    } else {
        -((-a) / b)
    }
}

/// The x at which the line `y = m x + b` (slope in `UNIT` fixed point)
/// meets the horizontal edge at height `yy`: `(yy - b) * UNIT / m`,
/// truncated toward zero.
pub open spec fn spec_edge_x(m: int, b: int, yy: int) -> int {
    let num = (yy - b) * UNIT;
    if m > 0 {
        div_trunc(num, m)
    } else {
        -div_trunc(num, -m)
    }
}

fn edge_x(m: i64, b: i64, yy: i64) -> (x: i64)
    requires
        m != 0,
        -1_000_000_000_000 <= m <= 1_000_000_000_000,
        -600_000_000_000 <= b <= 600_000_000_000,
        yy == 0 || yy == UNIT,
    ensures
        x == spec_edge_x(m as int, b as int, yy as int),
        ({
            let nmag = if yy - b >= 0 { (yy - b) as int } else { (b - yy) as int };
            let mmag = if m >= 0 { m as int } else { (-m) as int };
            0 <= (if x >= 0 { x as int } else { -x as int }) <= nmag * 1_000_000 / mmag
        }),
{
    let num = yy - b;
    let nmag: u64 = if num >= 0 {
        num as u64
    } else {
        (-num) as u64
    };
    let mmag: u64 = if m >= 0 {
        m as u64
    } else {
        (-m) as u64
    };
    let q = (nmag * 1_000_000) / mmag;
    proof {
        lemma_udiv_bound((nmag * 1_000_000) as int, mmag as int, 700_000_000_000_000_000);
    }
    let qi = q as i64;
    if (num >= 0) == (m > 0) {
        qi
    } else {
        -qi
    }
}

/// One gradient endpoint candidate: the line evaluated at `x0` (either 0 or
/// `UNIT`); when the height leaves the unit square, the point is moved along
/// the line onto the crossed horizontal edge.
pub open spec fn spec_candidate(m: int, b: int, x0: int) -> UnitPoint {
    let y = if x0 == 0 {
        b
    } else {
        m + b
    };
    if 0 <= y <= UNIT {
        (UnitPoint { x: x0 as i64, y: y as i64 })
    } else if y > UNIT {
        (UnitPoint { x: spec_edge_x(m, b, UNIT as int) as i64, y: UNIT })
    } else {
        (UnitPoint { x: spec_edge_x(m, b, 0) as i64, y: 0 })
    }
}

fn candidate(m: i64, b: i64, at_right: bool) -> (p: UnitPoint)
    requires
        -1_000_000_000_000 <= m <= 1_000_000_000_000,
        b == spec_intercept(m as int),
    ensures
        p == spec_candidate(
            m as int,
            b as int,
            if at_right {
                UNIT as int
            } else {
                0
            },
        ),
        0 <= p.x <= UNIT,
        0 <= p.y <= UNIT,
{
    let x0: i64 = if at_right {
        UNIT
    } else {
        0
    };
    let y = if at_right {
        m + b
    } else {
        b
    };
    if 0 <= y && y <= UNIT {
        UnitPoint { x: x0, y }
    } else if y > UNIT {
        proof {
            if at_right {
                assert(m > UNIT);
            } else {
                assert(m <= -UNIT - 2);
            }
        }
        let x = edge_x(m, b, UNIT);
        proof {
            let nmag = if UNIT - b >= 0 { (UNIT - b) as int } else { (b - UNIT) as int };
            let mmag = if m >= 0 { m as int } else { (-m) as int };
            assert(nmag <= mmag);
            lemma_udiv_bound(nmag * 1_000_000, mmag, 1_000_000);
            vstd::arithmetic::div_mod::lemma_div_is_ordered(
                nmag * 1_000_000,
                mmag * 1_000_000,
                mmag,
            );
        }
        UnitPoint { x, y: UNIT }
    } else {
        proof {
            if at_right {
                assert(m <= -UNIT - 1);
            } else {
                assert(m > UNIT);
            }
        }
        let x = edge_x(m, b, 0);
        proof {
            let nmag = if 0 - b >= 0 { (0 - b) as int } else { (b - 0) as int };
            let mmag = if m >= 0 { m as int } else { (-m) as int };
            assert(nmag <= mmag);
            lemma_udiv_bound(nmag * 1_000_000, mmag, 1_000_000);
        }
        UnitPoint { x, y: 0 }
    }
}

/// A vertical gradient axis through the center of the square.
pub open spec fn spec_vertical(up: bool) -> GradientCoordinates {
    if up {
        (GradientCoordinates {
            start: UnitPoint { x: HALF_UNIT, y: UNIT },
            end: UnitPoint { x: HALF_UNIT, y: 0 },
        })
    } else {
        (GradientCoordinates {
            start: UnitPoint { x: HALF_UNIT, y: 0 },
            end: UnitPoint { x: HALF_UNIT, y: UNIT },
        })
    }
}

/// The start and end of the gradient axis for an angle in millidegrees.
///
/// The candidates are taken at the left and right edges of the square and
/// swapped for angles whose magnitude normalizes into `[90, 270)` degrees;
/// an angle on the vertical axis short-circuits to the exact vertical.
pub open spec fn spec_angle_coordinates(millideg: int) -> GradientCoordinates {
    let a = (if millideg < 0 {
        -millideg
    } else {
        millideg
    }) % 360_000;
    if a == 90_000 || a == 270_000 {
        spec_vertical((millideg > 0) == (a == 90_000))
    } else {
        let t = if millideg >= 0 {
            (360_000 - a) % 180_000
        } else {
            a % 180_000
        };
        let m = spec_tan(t);
        let b = spec_intercept(m);
        if 90_000 < a < 270_000 {
            (GradientCoordinates {
                start: spec_candidate(m, b, UNIT as int),
                end: spec_candidate(m, b, 0),
            })
        } else {
            (GradientCoordinates {
                start: spec_candidate(m, b, 0),
                end: spec_candidate(m, b, UNIT as int),
            })
        }
    }
}

/// Converts a gradient angle to the start/end of the gradient axis; both
/// points always lie inside the unit square.
pub fn angle_to_coordinates(millideg: i64) -> (r: GradientCoordinates)
    requires
        -1_000_000_000_000 <= millideg <= 1_000_000_000_000,
    ensures
        r == spec_angle_coordinates(millideg as int),
        r.in_unit_square(),
{
    let mag: u64 = if millideg < 0 {
        (-millideg) as u64
    } else {
        millideg as u64
    };
    let a = mag % 360_000;
    if a == 90_000 || a == 270_000 {
        let up = (millideg > 0) == (a == 90_000);
        if up {
            GradientCoordinates {
                start: UnitPoint { x: HALF_UNIT, y: UNIT },
                end: UnitPoint { x: HALF_UNIT, y: 0 },
            }
        } else {
            GradientCoordinates {
                start: UnitPoint { x: HALF_UNIT, y: 0 },
                end: UnitPoint { x: HALF_UNIT, y: UNIT },
            }
        }
    } else {
        let t: u64 = if millideg >= 0 {
            (360_000 - a) % 180_000
        } else {
            a % 180_000
        };
        proof {
            assert(a % 180_000 == (if a < 180_000 {
                a as int
            } else {
                a - 180_000
            }));
            assert((360_000 - a) % 180_000 == (if a == 0 {
                0int
            } else if a > 180_000 {
                360_000 - a
            } else {
                180_000 - a
            }));
        }
        let m = tan_fp(t);
        let b = intercept(m);
        if 90_000 < a && a < 270_000 {
            GradientCoordinates {
                start: candidate(m, b, true),
                end: candidate(m, b, false),
            }
        } else {
            GradientCoordinates {
                start: candidate(m, b, false),
                end: candidate(m, b, true),
            }
        }
    }
}

} // verus!
