//! Colors and the color/brush resolver.
//!
//! A color channel is held in integer fixed point: the value `1.0` is
//! `CHANNEL_UNIT`. The unit is `255 * 90_000`, chosen so that three kinds of
//! exact values all have exact representations:
//! - a hex channel `n` is `n / 255`, held as `n * CHANNEL_STEP`;
//! - a decimal alpha of up to four places is a multiple of `1 / 10_000`
//!   (`CHANNEL_UNIT` is divisible by `10_000`);
//! - the inactive accent channel `avg / 1.5 + c / 10` over byte channels is a
//!   multiple of `1 / 22_950` (`CHANNEL_UNIT` is divisible by `22_950`).

use vstd::prelude::*;
use vstd::string::StringSliceAdditionalSpecFns;

use crate::angle::{
    angle_to_coordinates, parse_angle, spec_angle_coordinates, spec_parse_angle,
    GradientCoordinates,
};
use crate::text::{dec_val, dec_value_capped, digits_end, lemma_digits_end_bounds, scan_digits};
use crate::utils::Rect;
use crate::UNIT;

verus! {

/// Fixed-point unit for color channels: the channel value `1.0`.
pub const CHANNEL_UNIT: u32 = 22_950_000;

/// `CHANNEL_UNIT / 255`: one 8-bit step of a channel.
pub const CHANNEL_STEP: u32 = 90_000;

/// `CHANNEL_UNIT / 10_000`: one step of the fourth decimal place.
pub const CHANNEL_TEN_THOUSANDTH: u32 = 2_295;

/// An rgba color; each channel lies in `[0, CHANNEL_UNIT]`.
#[derive(Clone, Copy, PartialEq, Eq, Structural, Debug)]
pub struct Color {
    pub r: u32,
    pub g: u32,
    pub b: u32,
    pub a: u32,
}

impl Color {
    /// Every channel lies inside the fixed-point unit range.
    pub open spec fn well_formed(self) -> bool {
        self.r <= CHANNEL_UNIT && self.g <= CHANNEL_UNIT && self.b <= CHANNEL_UNIT
            && self.a <= CHANNEL_UNIT
    }
}

/// Opaque white: the fallback for an unparseable hex string.
pub open spec fn spec_white() -> Color {
    (Color { r: CHANNEL_UNIT, g: CHANNEL_UNIT, b: CHANNEL_UNIT, a: CHANNEL_UNIT })
}

/// Opaque black: the fallback for a malformed `rgb(...)` string.
pub open spec fn spec_opaque_black() -> Color {
    (Color { r: 0, g: 0, b: 0, a: CHANNEL_UNIT })
}

/// Transparent black: the channel values of a default brush.
pub open spec fn spec_transparent() -> Color {
    (Color { r: 0, g: 0, b: 0, a: 0 })
}

/// Why a color token failed to parse.
#[derive(Clone, Copy, PartialEq, Eq, Structural, Debug)]
pub enum ColorParseError {
    InvalidHex,
    InvalidRgb,
}

/// True for the bytes `0-9`, `a-f`, `A-F`.
pub open spec fn is_hex_digit(c: u8) -> bool {
    (48 <= c <= 57) || (97 <= c <= 102) || (65 <= c <= 70)
}

/// The value of one hex digit.
pub open spec fn hex_val(c: u8) -> u32 {
    if 48 <= c <= 57 {
        (c - 48) as u32
    } else if 97 <= c <= 102 {
        (c - 87) as u32
    } else if 65 <= c <= 70 {
        (c - 55) as u32
    } else {
        0
    }
}

fn hex_digit_value(c: u8) -> (r: Option<u32>)
    ensures
        r is Some <==> is_hex_digit(c),
        is_hex_digit(c) ==> r == Some(hex_val(c)) && hex_val(c) <= 15,
{
    if 48 <= c && c <= 57 {
        Some((c - 48) as u32)
    } else if 97 <= c && c <= 102 {
        Some((c - 87) as u32)
    } else if 65 <= c && c <= 70 {
        Some((c - 55) as u32)
    } else {
        None
    }
}

/// The channel encoded by one shorthand hex digit: the nibble is duplicated
/// into both halves of the byte (`X` reads as `XX`).
pub open spec fn short_channel(c: u8) -> u32 {
    (hex_val(c) * 17 * CHANNEL_STEP) as u32
}

/// The channel encoded by two hex digits.
pub open spec fn long_channel(hi: u8, lo: u8) -> u32 {
    ((hex_val(hi) * 16 + hex_val(lo)) * CHANNEL_STEP) as u32
}

/// The body of a hex token: a leading `#` is optional and ignored.
pub open spec fn hex_body(s: Seq<u8>) -> Seq<u8> {
    if s.len() > 0 && s[0] == 35 {
        s.subrange(1, s.len() as int)
    } else {
        s
    }
}

/// A hex body is valid when it has 3, 4, 6 or 8 bytes, all hex digits.
pub open spec fn valid_hex_body(s: Seq<u8>) -> bool {
    (s.len() == 3 || s.len() == 4 || s.len() == 6 || s.len() == 8) && (forall|i: int|
        0 <= i < s.len() ==> is_hex_digit(#[trigger] s[i]))
}

/// The color encoded by a valid hex body; a missing alpha reads as opaque.
pub open spec fn hex_color(s: Seq<u8>) -> Color {
    if s.len() == 3 {
        (Color {
            r: short_channel(s[0]),
            g: short_channel(s[1]),
            b: short_channel(s[2]),
            a: CHANNEL_UNIT,
        })
    } else if s.len() == 4 {
        (Color {
            r: short_channel(s[0]),
            g: short_channel(s[1]),
            b: short_channel(s[2]),
            a: short_channel(s[3]),
        })
    } else if s.len() == 6 {
        (Color {
            r: long_channel(s[0], s[1]),
            g: long_channel(s[2], s[3]),
            b: long_channel(s[4], s[5]),
            a: CHANNEL_UNIT,
        })
    } else {
        (Color {
            r: long_channel(s[0], s[1]),
            g: long_channel(s[2], s[3]),
            b: long_channel(s[4], s[5]),
            a: long_channel(s[6], s[7]),
        })
    }
}

/// Shorthand hex bodies mean exactly their nibble-doubled long forms: a
/// 3- or 4-digit body denotes the same color as the 6- or 8-digit body in
/// which every digit appears twice (`abc` reads as `aabbcc`).
pub proof fn lemma_hex_shorthand_expands(s: Seq<u8>)
    requires
        valid_hex_body(s),
        s.len() == 3 || s.len() == 4,
    ensures
        ({
            let doubled = if s.len() == 3 {
                seq![s[0], s[0], s[1], s[1], s[2], s[2]]
            } else {
                seq![s[0], s[0], s[1], s[1], s[2], s[2], s[3], s[3]]
            };
            valid_hex_body(doubled) && hex_color(doubled) == hex_color(s)
        }),
{
}

fn short_channel_of(c: u8) -> (r: u32)
    requires
        is_hex_digit(c),
    ensures
        r == short_channel(c),
        r <= CHANNEL_UNIT,
{
    let v = match hex_digit_value(c) {
        Some(v) => v,
        None => 0,
    };
    v * 17 * CHANNEL_STEP
}

fn long_channel_of(hi: u8, lo: u8) -> (r: u32)
    requires
        is_hex_digit(hi),
        is_hex_digit(lo),
    ensures
        r == long_channel(hi, lo),
        r <= CHANNEL_UNIT,
{
    let h = match hex_digit_value(hi) {
        Some(v) => v,
        None => 0,
    };
    let l = match hex_digit_value(lo) {
        Some(v) => v,
        None => 0,
    };
    (h * 16 + l) * CHANNEL_STEP
}

/// Parses a hex color token (`#RGB`, `#RGBA`, `#RRGGBB`, `#RRGGBBAA`; the
/// leading `#` may be omitted). Shorthand digits expand by nibble
/// duplication, not zero padding.
pub fn parse_hex(s: &str) -> (r: Result<Color, ColorParseError>)
    ensures
        r is Ok <==> valid_hex_body(hex_body(s.spec_bytes())),
        valid_hex_body(hex_body(s.spec_bytes())) ==> r == Ok::<Color, ColorParseError>(
            hex_color(hex_body(s.spec_bytes())),
        ),
{
    let bytes = s.as_bytes();
    let n = bytes.len();
    let off: usize = if n > 0 && bytes[0] == 35 {
        1
    } else {
        0
    };
    let ghost body = hex_body(s.spec_bytes());
    proof {
        assert(body =~= bytes@.subrange(off as int, n as int));
    }
    let m = n - off;
    if !(m == 3 || m == 4 || m == 6 || m == 8) {
        return Err(ColorParseError::InvalidHex);
    }
    let mut i: usize = off;
    while i < n
        invariant
            off <= i <= n,
            n == bytes@.len(),
            bytes@ == s.spec_bytes(),
            body == hex_body(s.spec_bytes()),
            body =~= bytes@.subrange(off as int, n as int),
            forall|j: int| off <= j < i ==> is_hex_digit(#[trigger] bytes@[j]),
        decreases n - i,
    {
        if hex_digit_value(bytes[i]).is_none() {
            assert(body[i - off] == bytes@[i as int]);
            return Err(ColorParseError::InvalidHex);
        }
        i = i + 1;
    }
    assert(forall|j: int| 0 <= j < body.len() ==> is_hex_digit(#[trigger] body[j])) by {
        assert(forall|j: int| 0 <= j < body.len() ==> body[j] == bytes@[j + off]);
    }
    if m == 3 || m == 4 {
        let r = short_channel_of(bytes[off]);
        let g = short_channel_of(bytes[off + 1]);
        let b = short_channel_of(bytes[off + 2]);
        let a = if m == 4 {
            short_channel_of(bytes[off + 3])
        } else {
            CHANNEL_UNIT
        };
        Ok(Color { r, g, b, a })
    } else {
        let r = long_channel_of(bytes[off], bytes[off + 1]);
        let g = long_channel_of(bytes[off + 2], bytes[off + 3]);
        let b = long_channel_of(bytes[off + 4], bytes[off + 5]);
        let a = if m == 8 {
            long_channel_of(bytes[off + 6], bytes[off + 7])
        } else {
            CHANNEL_UNIT
        };
        Ok(Color { r, g, b, a })
    }
}

/// Resolves a hex token, falling back to opaque white on any parse error.
pub fn get_color_from_hex(s: &str) -> (r: Color)
    ensures
        valid_hex_body(hex_body(s.spec_bytes())) ==> r == hex_color(hex_body(s.spec_bytes())),
        !valid_hex_body(hex_body(s.spec_bytes())) ==> r == spec_white(),
        r.well_formed(),
{
    match parse_hex(s) {
        Ok(c) => c,
        Err(_) => Color { r: CHANNEL_UNIT, g: CHANNEL_UNIT, b: CHANNEL_UNIT, a: CHANNEL_UNIT },
    }
}

/// The length of an `rgb(`/`rgba(` prefix, or 0 when there is none.
pub open spec fn rgb_prefix_len(s: Seq<u8>) -> int {
    if s.len() >= 5 && s[0] == 114 && s[1] == 103 && s[2] == 98 && s[3] == 97 && s[4] == 40 {
        5
    } else if s.len() >= 4 && s[0] == 114 && s[1] == 103 && s[2] == 98 && s[3] == 40 {
        4
    } else {
        0
    }
}

/// True when the token starts with the three bytes `rgb`; such a token is
/// routed to the `rgb(...)` parser (and falls back to opaque black when the
/// rest of it is malformed).
pub open spec fn has_rgb_prefix(s: Seq<u8>) -> bool {
    s.len() >= 3 && s[0] == 114 && s[1] == 103 && s[2] == 98
}

/// The fraction digits `s[from..to)` (at most four of them), scaled to
/// ten-thousandths.
pub open spec fn frac4(s: Seq<u8>, from: int, to: int) -> int {
    let v = dec_val(s.subrange(from, to));
    if to - from <= 0 {
        0
    } else if to - from == 1 {
        v * 1000
    } else if to - from == 2 {
        v * 100
    } else if to - from == 3 {
        v * 10
    } else {
        v
    }
}

/// True when `s[from..to)` is a well-formed alpha literal: an optional `-`,
/// then decimal digits with an optional point and at most four fraction
/// digits, with at least one digit in all.
pub open spec fn alpha_ok(s: Seq<u8>, from: int, to: int) -> bool {
    0 <= from && to <= s.len() && {
        let k = if from < to && s[from] == 45 {
            from + 1
        } else {
            from
        };
        let ie = digits_end(s, k);
        if ie > to {
            false
        } else if ie == to {
            ie > k
        } else {
            s[ie] == 46 && {
                let fe = digits_end(s, ie + 1);
                fe == to && (ie > k || fe > ie + 1) && fe - (ie + 1) <= 4
            }
        }
    }
}

/// The channel value of a well-formed alpha literal, clamped to `[0, 1]`.
pub open spec fn alpha_val(s: Seq<u8>, from: int, to: int) -> u32 {
    if from < to && s[from] == 45 {
        0
    } else {
        let ie = digits_end(s, from);
        let i_val = dec_val(s.subrange(from, ie));
        let f = if ie >= to {
            0
        } else {
            frac4(s, ie + 1, to)
        };
        if i_val >= 1 {
            CHANNEL_UNIT
        } else {
            (f * CHANNEL_TEN_THOUSANDTH) as u32
        }
    }
}

/// The color denoted by an `rgb(...)`/`rgba(...)` token, or `None` when the
/// token is malformed: exactly 3 or 4 comma-separated components inside the
/// parentheses, the first three bare decimal integers in `[0, 255]`, the
/// fourth an alpha literal clamped to `[0, 1]`.
pub open spec fn spec_parse_rgb(s: Seq<u8>) -> Option<Color> {
    let p = rgb_prefix_len(s);
    if p == 0 || s[s.len() - 1] != 41 {
        None
    } else {
        let close = s.len() - 1;
        let e1 = digits_end(s, p);
        let v1 = dec_val(s.subrange(p, e1));
        if !(e1 > p && v1 <= 255 && e1 < close && s[e1] == 44) {
            None
        } else {
            let p2 = e1 + 1;
            let e2 = digits_end(s, p2);
            let v2 = dec_val(s.subrange(p2, e2));
            if !(e2 > p2 && v2 <= 255 && e2 < close && s[e2] == 44) {
                None
            } else {
                let p3 = e2 + 1;
                let e3 = digits_end(s, p3);
                let v3 = dec_val(s.subrange(p3, e3));
                if !(e3 > p3 && v3 <= 255 && e3 <= close) {
                    None
                } else if e3 == close {
                    Some(
                        Color {
                            r: (v1 * CHANNEL_STEP) as u32,
                            g: (v2 * CHANNEL_STEP) as u32,
                            b: (v3 * CHANNEL_STEP) as u32,
                            a: CHANNEL_UNIT,
                        },
                    )
                } else if s[e3] == 44 && alpha_ok(s, e3 + 1, close) {
                    Some(
                        Color {
                            r: (v1 * CHANNEL_STEP) as u32,
                            g: (v2 * CHANNEL_STEP) as u32,
                            b: (v3 * CHANNEL_STEP) as u32,
                            a: alpha_val(s, e3 + 1, close),
                        },
                    )
                } else {
                    None
                }
            }
        }
    }
}

/// The color an `rgb` token resolves to: its parsed value, or opaque black
/// when it is malformed.
pub open spec fn spec_rgb_or_black(s: Seq<u8>) -> Color {
    match spec_parse_rgb(s) {
        Some(c) => c,
        None => spec_opaque_black(),
    }
}

/// Reads one integer component `s[from..)` and checks its bounds; returns
/// the component value and the index that follows it.
fn parse_component(s: &[u8], from: usize) -> (r: Option<(u32, usize)>)
    requires
        from <= s@.len(),
    ensures
        ({
            let e = digits_end(s@, from as int);
            let v = dec_val(s@.subrange(from as int, e));
            &&& from <= e <= s@.len()
            &&& r is Some <==> (e > from && v <= 255)
            &&& r is Some ==> 0 <= v && r == Some::<(u32, usize)>((v as u32, e as usize))
        }),
{
    let e = scan_digits(s, from);
    proof {
        lemma_digits_end_bounds(s@, from as int);
        crate::text::lemma_digit_run_all_digits(s@, from as int, e as int);
    }
    if e == from {
        return None;
    }
    let v = match dec_value_capped(s, from, e, 256) {
        Some(v) => v,
        None => 0,
    };
    proof {
        crate::text::lemma_dec_val_nonneg(s@.subrange(from as int, e as int));
    }
    if v <= 255 {
        Some((v as u32, e))
    } else {
        None
    }
}

/// Reads the alpha component `s[from..to)`.
fn parse_alpha(s: &[u8], from: usize, to: usize) -> (r: Option<u32>)
    requires
        from <= to <= s@.len(),
    ensures
        r is Some <==> alpha_ok(s@, from as int, to as int),
        alpha_ok(s@, from as int, to as int) ==> r == Some(alpha_val(s@, from as int, to as int))
            && alpha_val(s@, from as int, to as int) <= CHANNEL_UNIT,
{
    let neg = from < to && s[from] == 45;
    let k = if neg {
        from + 1
    } else {
        from
    };
    let ie = scan_digits(s, k);
    proof {
        lemma_digits_end_bounds(s@, k as int);
        crate::text::lemma_digit_run_all_digits(s@, k as int, ie as int);
    }
    if ie > to {
        return None;
    }
    let i_capped = match dec_value_capped(s, k, ie, 2) {
        Some(v) => v,
        None => 0,
    };
    proof {
        crate::text::lemma_dec_val_nonneg(s@.subrange(k as int, ie as int));
    }
    if ie == to {
        if ie == k {
            return None;
        }
        if neg {
            return Some(0);
        }
        if i_capped >= 1 {
            return Some(CHANNEL_UNIT);
        }
        return Some(0);
    }
    if s[ie] != 46 {
        return None;
    }
    let fe = scan_digits(s, ie + 1);
    proof {
        lemma_digits_end_bounds(s@, ie + 1);
        crate::text::lemma_digit_run_all_digits(s@, ie + 1, fe as int);
    }
    if !(fe == to && (ie > k || fe > ie + 1) && fe - (ie + 1) <= 4) {
        return None;
    }
    let flen = fe - (ie + 1);
    let fv = match dec_value_capped(s, ie + 1, fe, 9999) {
        Some(v) => v,
        None => 0,
    };
    proof {
        crate::text::lemma_dec_val_nonneg(s@.subrange(ie + 1, fe as int));
        crate::text::lemma_dec_val_upper(s@.subrange(ie + 1, fe as int));
    }
    let f: u32 = if flen == 0 {
        0
    } else if flen == 1 {
        (fv as u32) * 1000
    } else if flen == 2 {
        (fv as u32) * 100
    } else if flen == 3 {
        (fv as u32) * 10
    } else {
        fv as u32
    };
    if neg {
        return Some(0);
    }
    if i_capped >= 1 {
        return Some(CHANNEL_UNIT);
    }
    Some(f * CHANNEL_TEN_THOUSANDTH)
}

/// Parses an `rgb(...)`/`rgba(...)` token.
pub fn parse_rgb(s: &str) -> (r: Result<Color, ColorParseError>)
    ensures
        r is Ok <==> spec_parse_rgb(s.spec_bytes()) is Some,
        (match spec_parse_rgb(s.spec_bytes()) {
            Some(c) => r == Ok::<Color, ColorParseError>(c) && c.well_formed(),
            None => r == Err::<Color, ColorParseError>(ColorParseError::InvalidRgb),
        }),
{
    let bytes = s.as_bytes();
    let n = bytes.len();
    let p: usize = if n >= 5 && bytes[0] == 114 && bytes[1] == 103 && bytes[2] == 98 && bytes[3]
        == 97 && bytes[4] == 40 {
        5
    } else if n >= 4 && bytes[0] == 114 && bytes[1] == 103 && bytes[2] == 98 && bytes[3] == 40 {
        4
    } else {
        return Err(ColorParseError::InvalidRgb);
    };
    if bytes[n - 1] != 41 {
        return Err(ColorParseError::InvalidRgb);
    }
    let close = n - 1;
    let (v1, e1) = match parse_component(bytes, p) {
        Some(x) => x,
        None => {
            return Err(ColorParseError::InvalidRgb);
        },
    };
    if !(e1 < close && bytes[e1] == 44) {
        return Err(ColorParseError::InvalidRgb);
    }
    let (v2, e2) = match parse_component(bytes, e1 + 1) {
        Some(x) => x,
        None => {
            return Err(ColorParseError::InvalidRgb);
        },
    };
    if !(e2 < close && bytes[e2] == 44) {
        return Err(ColorParseError::InvalidRgb);
    }
    let (v3, e3) = match parse_component(bytes, e2 + 1) {
        Some(x) => x,
        None => {
            return Err(ColorParseError::InvalidRgb);
        },
    };
    if e3 > close {
        return Err(ColorParseError::InvalidRgb);
    }
    if e3 == close {
        return Ok(
            Color { r: v1 * CHANNEL_STEP, g: v2 * CHANNEL_STEP, b: v3 * CHANNEL_STEP, a: CHANNEL_UNIT },
        );
    }
    if bytes[e3] != 44 {
        return Err(ColorParseError::InvalidRgb);
    }
    let a = match parse_alpha(bytes, e3 + 1, close) {
        Some(a) => a,
        None => {
            return Err(ColorParseError::InvalidRgb);
        },
    };
    Ok(Color { r: v1 * CHANNEL_STEP, g: v2 * CHANNEL_STEP, b: v3 * CHANNEL_STEP, a })
}

/// Resolves an `rgb(...)`/`rgba(...)` token, falling back to opaque black
/// when it is malformed.
pub fn get_color_from_rgb(s: &str) -> (r: Color)
    ensures
        r == spec_rgb_or_black(s.spec_bytes()),
        r.well_formed(),
{
    match parse_rgb(s) {
        Ok(c) => c,
        Err(_) => Color { r: 0, g: 0, b: 0, a: CHANNEL_UNIT },
    }
}

/// True for the exact token `accent`.
pub open spec fn is_accent_token(s: Seq<u8>) -> bool {
    s.len() == 6 && s[0] == 97 && s[1] == 99 && s[2] == 99 && s[3] == 101 && s[4] == 110 && s[5]
        == 116
}

/// The red byte of a packed `0x00RRGGBB` colorization value.
pub open spec fn accent_red(c: u32) -> u32 {
    (c & 0x00FF0000u32) >> 16u32
}

/// The green byte of a packed colorization value.
pub open spec fn accent_green(c: u32) -> u32 {
    (c & 0x0000FF00u32) >> 8u32
}

/// The blue byte of a packed colorization value.
pub open spec fn accent_blue(c: u32) -> u32 {
    c & 0x000000FFu32
}

/// The inactive accent channel: `avg / 1.5 + c / 10` over the three active
/// byte channels, carried out exactly in fixed point. With `sum` the sum of
/// the three active bytes and `ch` one of them, the channel is
/// `(20 * sum + 9 * ch) / 22_950` of one, which is `(20 * sum + 9 * ch) * 1000`
/// channel units.
pub open spec fn darkened_channel(sum: int, ch: int) -> u32 {
    ((20 * sum + 9 * ch) * 1000) as u32
}

/// The color the accent token resolves to. The active color is the packed
/// accent color itself, fully opaque; the inactive color darkens each
/// channel by the mean of the active channels.
pub open spec fn spec_accent_color(is_active: bool, colorization: u32) -> Color {
    let r = accent_red(colorization);
    let g = accent_green(colorization);
    let b = accent_blue(colorization);
    if is_active {
        (Color {
            r: (r * CHANNEL_STEP) as u32,
            g: (g * CHANNEL_STEP) as u32,
            b: (b * CHANNEL_STEP) as u32,
            a: CHANNEL_UNIT,
        })
    } else {
        (Color {
            r: darkened_channel(r + g + b, r as int),
            g: darkened_channel(r + g + b, g as int),
            b: darkened_channel(r + g + b, b as int),
            a: CHANNEL_UNIT,
        })
    }
}

/// Turns the packed accent colorization value into the active or inactive
/// accent color. The caller obtains `colorization` from the platform's
/// accent-color capability (0, that is black, when that call failed).
pub fn get_accent_color(is_active_color: bool, colorization: u32) -> (c: Color)
    ensures
        c == spec_accent_color(is_active_color, colorization),
        c.well_formed(),
{
    let red = (colorization & 0x00FF0000) >> 16;
    let green = (colorization & 0x0000FF00) >> 8;
    let blue = colorization & 0x000000FF;
    proof {
        assert(((colorization & 0x00FF0000u32) >> 16u32) <= 255) by (bit_vector);
        assert(((colorization & 0x0000FF00u32) >> 8u32) <= 255) by (bit_vector);
        assert((colorization & 0x000000FFu32) <= 255) by (bit_vector);
    }
    if is_active_color {
        Color { r: red * CHANNEL_STEP, g: green * CHANNEL_STEP, b: blue * CHANNEL_STEP, a: CHANNEL_UNIT }
    } else {
        let sum = red + green + blue;
        Color {
            r: (20 * sum + 9 * red) * 1000,
            g: (20 * sum + 9 * green) * 1000,
            b: (20 * sum + 9 * blue) * 1000,
            a: CHANNEL_UNIT,
        }
    }
}

/// The color a solid token denotes: `accent` resolves through the accent
/// color, a token starting with `rgb` through the `rgb(...)` parser, and
/// anything else through the hex parser.
pub open spec fn spec_solid_color(s: Seq<u8>, is_active: bool, colorization: u32) -> Color {
    if is_accent_token(s) {
        spec_accent_color(is_active, colorization)
    } else if has_rgb_prefix(s) {
        spec_rgb_or_black(s)
    } else if valid_hex_body(hex_body(s)) {
        hex_color(hex_body(s))
    } else {
        spec_white()
    }
}

/// Resolves one solid color token.
pub fn resolve_solid_token(token: &str, is_active: bool, colorization: u32) -> (c: Color)
    ensures
        c == spec_solid_color(token.spec_bytes(), is_active, colorization),
        c.well_formed(),
{
    let bytes = token.as_bytes();
    let n = bytes.len();
    if n == 6 && bytes[0] == 97 && bytes[1] == 99 && bytes[2] == 99 && bytes[3] == 101 && bytes[4]
        == 110 && bytes[5] == 116 {
        get_accent_color(is_active, colorization)
    } else if n >= 3 && bytes[0] == 114 && bytes[1] == 103 && bytes[2] == 98 {
        get_color_from_rgb(token)
    } else {
        get_color_from_hex(token)
    }
}

/// The UTF-8 bytes of a string value.
pub open spec fn string_bytes(s: Seq<char>) -> Seq<u8> {
    vstd::utf8::encode_utf8(s)
}

/// Declarative color configuration: one solid token, or a gradient over a
/// list of tokens with a direction.
#[derive(Debug, PartialEq)]
pub enum ColorBrushConfig {
    Solid(String),
    Gradient(GradientBrushConfig),
}

/// A gradient configuration: its color tokens in order, and its direction.
#[derive(Debug, PartialEq)]
pub struct GradientBrushConfig {
    pub colors: Vec<String>,
    pub direction: GradientDirection,
}

/// A gradient direction: an angle token such as `45deg`, or explicit
/// unit-square coordinates.
#[derive(Debug, PartialEq)]
pub enum GradientDirection {
    Angle(String),
    Coordinates(GradientCoordinates),
}

impl ColorBrushConfig {
    /// A gradient carries at least one color token (and not absurdly many:
    /// the stop positions are computed in 64-bit fixed point), and explicit
    /// coordinates lie inside the unit square.
    pub open spec fn well_formed(self) -> bool {
        match self {
            ColorBrushConfig::Solid(_) => true,
            ColorBrushConfig::Gradient(g) => {
                &&& 1 <= g.colors@.len() <= 1_000_000_000
                &&& match g.direction {
                    GradientDirection::Angle(_) => true,
                    GradientDirection::Coordinates(c) => c.in_unit_square(),
                }
            },
        }
    }
}

impl Default for ColorBrushConfig {
    /// The default configuration follows the platform accent color.
    fn default() -> (r: Self)
        ensures
            r matches ColorBrushConfig::Solid(t) && t@ == "accent"@,
    {
        ColorBrushConfig::Solid("accent".to_owned())
    }
}

/// One resolved gradient stop: a position in `[0, UNIT]` and a color.
#[derive(Clone, Copy, PartialEq, Eq, Structural, Debug)]
pub struct GradientStop {
    pub position: i64,
    pub color: Color,
}

/// A resolved solid paint descriptor, plus the renderer-side brush resource
/// currently bound to it (if any).
#[derive(Clone, Debug, PartialEq)]
pub struct SolidBrush {
    pub color: Color,
    pub brush: Option<u64>,
}

/// A resolved gradient paint descriptor, plus the renderer-side brush
/// resource currently bound to it (if any).
#[derive(Clone, Debug, PartialEq)]
pub struct GradientBrush {
    pub gradient_stops: Vec<GradientStop>,
    pub direction: GradientCoordinates,
    pub brush: Option<u64>,
}

/// A renderer-ready paint descriptor.
#[derive(Clone, Debug, PartialEq)]
pub enum ColorBrush {
    Solid(SolidBrush),
    Gradient(GradientBrush),
}

/// The default brush: transparent black, with no resource bound.
pub open spec fn spec_default_brush() -> ColorBrush {
    ColorBrush::Solid(SolidBrush { color: spec_transparent(), brush: None })
}

impl Default for ColorBrush {
    fn default() -> (r: Self)
        ensures
            r == spec_default_brush(),
    {
        ColorBrush::Solid(SolidBrush { color: Color { r: 0, g: 0, b: 0, a: 0 }, brush: None })
    }
}

/// The position of stop `i` of `n`: stops are evenly spaced over `[0, UNIT]`
/// (`n` is at least 2 here; a single-stop gradient resolves as a solid).
pub open spec fn spec_stop_position(i: int, n: int) -> i64 {
    ((i * 1_000_000) / (n - 1)) as i64
}

/// Evenly spaced stop positions stay inside `[0, UNIT]`.
proof fn lemma_stop_position_bounds(i: int, n: int)
    requires
        0 <= i < n,
        2 <= n,
    ensures
        0 <= i * 1_000_000 / (n - 1) <= 1_000_000,
{
    vstd::arithmetic::div_mod::lemma_div_pos_is_pos(i * 1_000_000, n - 1);
    vstd::arithmetic::div_mod::lemma_div_is_ordered(i * 1_000_000, (n - 1) * 1_000_000, n - 1);
    vstd::arithmetic::div_mod::lemma_div_multiples_vanish(1_000_000, n - 1);
}

/// The resolved stops of a gradient over the given color tokens.
pub open spec fn spec_gradient_stops(tokens: Seq<String>, is_active: bool, colorization: u32) -> Seq<
    GradientStop,
> {
    Seq::new(
        tokens.len(),
        |i: int|
            GradientStop {
                position: spec_stop_position(i, tokens.len() as int),
                color: spec_solid_color(string_bytes(tokens[i]@), is_active, colorization),
            },
    )
}

/// The resolved direction of a gradient: explicit coordinates pass through
/// unchanged; an angle token is parsed and converted, and an unparseable
/// one fails the whole resolution.
pub open spec fn spec_resolve_direction(d: GradientDirection) -> Option<GradientCoordinates> {
    match d {
        GradientDirection::Coordinates(c) => Some(c),
        GradientDirection::Angle(a) => match spec_parse_angle(string_bytes(a@)) {
            Some(v) => Some(spec_angle_coordinates(v)),
            None => None,
        },
    }
}

/// What a color configuration resolves to. A single-stop gradient resolves
/// as a solid of that one token; a gradient whose angle token does not
/// parse resolves to the default brush.
pub open spec fn resolves_to(
    cfg: ColorBrushConfig,
    is_active: bool,
    colorization: u32,
    r: ColorBrush,
) -> bool {
    match cfg {
        ColorBrushConfig::Solid(token) => r == ColorBrush::Solid(
            (SolidBrush {
                color: spec_solid_color(string_bytes(token@), is_active, colorization),
                brush: None,
            }),
        ),
        ColorBrushConfig::Gradient(g) => {
            if g.colors@.len() == 1 {
                r == ColorBrush::Solid(
                    (SolidBrush {
                        color: spec_solid_color(
                            string_bytes(g.colors@[0]@),
                            is_active,
                            colorization,
                        ),
                        brush: None,
                    }),
                )
            } else {
                match spec_resolve_direction(g.direction) {
                    None => r == spec_default_brush(),
                    Some(dir) => {
                        &&& r matches ColorBrush::Gradient(gb)
                        &&& gb.gradient_stops@ == spec_gradient_stops(
                            g.colors@,
                            is_active,
                            colorization,
                        )
                        &&& gb.direction == dir
                        &&& gb.brush is None
                    },
                }
            }
        },
    }
}

impl ColorBrushConfig {
    /// Resolves this configuration into a renderer-ready paint descriptor.
    /// `colorization` is the packed platform accent color (black when the
    /// platform call failed); `is_active_color` selects the active or the
    /// darkened inactive accent.
    pub fn to_color_brush(&self, is_active_color: bool, colorization: u32) -> (r: ColorBrush)
        requires
            self.well_formed(),
        ensures
            resolves_to(*self, is_active_color, colorization, r),
            r matches ColorBrush::Gradient(gb) ==> gb.direction.in_unit_square(),
    {
        match self {
            ColorBrushConfig::Solid(token) => ColorBrush::Solid(
                SolidBrush {
                    color: resolve_solid_token(token.as_str(), is_active_color, colorization),
                    brush: None,
                },
            ),
            ColorBrushConfig::Gradient(g) => {
                let n = g.colors.len();
                if n == 1 {
                    let c = resolve_solid_token(
                        g.colors[0].as_str(),
                        is_active_color,
                        colorization,
                    );
                    ColorBrush::Solid(SolidBrush { color: c, brush: None })
                } else {
                    let direction = match &g.direction {
                        GradientDirection::Coordinates(c) => *c,
                        GradientDirection::Angle(a) => match parse_angle(a.as_str()) {
                            Some(v) => angle_to_coordinates(v),
                            None => {
                                return ColorBrush::Solid(
                                    SolidBrush { color: Color { r: 0, g: 0, b: 0, a: 0 }, brush: None },
                                );
                            },
                        },
                    };
                    let ghost target = spec_gradient_stops(g.colors@, is_active_color, colorization);
                    let mut stops: Vec<GradientStop> = Vec::new();
                    let mut i: usize = 0;
                    while i < n
                        invariant
                            i <= n,
                            2 <= n <= 1_000_000_000,
                            n == g.colors@.len(),
                            target == spec_gradient_stops(g.colors@, is_active_color, colorization),
                            stops@.len() == i as int,
                            forall|j: int| 0 <= j < i ==> stops@[j] == target[j],
                        decreases n - i,
                    {
                        let pos64 = ((i as u64) * 1_000_000) / ((n - 1) as u64);
                        proof {
                            lemma_stop_position_bounds(i as int, n as int);
                        }
                        let c = resolve_solid_token(
                            g.colors[i].as_str(),
                            is_active_color,
                            colorization,
                        );
                        stops.push(GradientStop { position: pos64 as i64, color: c });
                        i = i + 1;
                    }
                    proof {
                        assert(stops@ =~= target);
                    }
                    ColorBrush::Gradient(
                        GradientBrush { gradient_stops: stops, direction, brush: None },
                    )
                }
            },
        }
    }
}

/// A point in pixel coordinates.
#[derive(Clone, Copy, PartialEq, Eq, Structural, Debug)]
pub struct PixelPoint {
    pub x: i64,
    pub y: i64,
}

/// A unit-square coordinate scaled to a pixel length, truncated toward
/// zero.
pub open spec fn spec_to_pixels(c: int, len: int) -> int {
    crate::angle::div_trunc(c * len, UNIT as int)
}

fn to_pixels(c: i64, len: i64) -> (r: i64)
    requires
        0 <= c <= UNIT,
        -4_300_000_000 <= len <= 4_300_000_000,
    ensures
        r == spec_to_pixels(c as int, len as int),
{
    if len >= 0 {
        proof {
            assert(0 <= c * len <= 4_300_000_000_000_000) by (nonlinear_arith)
                requires
                    0 <= c <= 1_000_000,
                    0 <= len <= 4_300_000_000,
            ;
        }
        let p = (c as u64) * (len as u64);
        proof {
            vstd::arithmetic::div_mod::lemma_div_nonincreasing(p as int, 1_000_000);
        }
        (p / 1_000_000) as i64
    } else {
        proof {
            assert(0 <= c * (-len) <= 4_300_000_000_000_000) by (nonlinear_arith)
                requires
                    0 <= c <= 1_000_000,
                    0 < -len <= 4_300_000_000,
            ;
            assert(c * (-len) == -(c * len)) by (nonlinear_arith);
        }
        let p = (c as u64) * ((-len) as u64);
        proof {
            vstd::arithmetic::div_mod::lemma_div_nonincreasing(p as int, 1_000_000);
        }
        -((p / 1_000_000) as i64)
    }
}

impl GradientBrush {
    /// The pixel positions of the gradient axis inside a window rectangle:
    /// the unit-square direction scaled by the rectangle's width and
    /// height. The caller hands these to the renderer as the brush's start
    /// and end points.
    pub fn update_start_end_points(&self, window_rect: &Rect) -> (r: (PixelPoint, PixelPoint))
        requires
            self.direction.in_unit_square(),
        ensures
            ({
                let w = window_rect.right - window_rect.left;
                let h = window_rect.bottom - window_rect.top;
                &&& r.0.x == spec_to_pixels(self.direction.start.x as int, w)
                &&& r.0.y == spec_to_pixels(self.direction.start.y as int, h)
                &&& r.1.x == spec_to_pixels(self.direction.end.x as int, w)
                &&& r.1.y == spec_to_pixels(self.direction.end.y as int, h)
            }),
    {
        let width = window_rect.right as i64 - window_rect.left as i64;
        let height = window_rect.bottom as i64 - window_rect.top as i64;
        let start = PixelPoint {
            x: to_pixels(self.direction.start.x, width),
            y: to_pixels(self.direction.start.y, height),
        };
        let end = PixelPoint {
            x: to_pixels(self.direction.end.x, width),
            y: to_pixels(self.direction.end.y, height),
        };
        (start, end)
    }
}

impl ColorBrush {
    /// Records the renderer-side brush resource that now backs this
    /// descriptor. The caller creates the resource through the rendering
    /// context (a solid paint for a solid descriptor, a linear-gradient
    /// paint for a gradient one) and hands its identifier in.
    pub fn init_brush(&mut self, resource: u64)
        ensures
            final(self).get_brush_spec() == Some(resource),
            final(self).same_paint(*old(self)),
    {
        match self {
            ColorBrush::Solid(solid) => {
                solid.brush = Some(resource);
            },
            ColorBrush::Gradient(gradient) => {
                gradient.brush = Some(resource);
            },
        }
    }

    /// The bound brush resource, if one has been created.
    pub open spec fn get_brush_spec(&self) -> Option<u64> {
        match *self {
            ColorBrush::Solid(s) => s.brush,
            ColorBrush::Gradient(g) => g.brush,
        }
    }

    /// True when the two descriptors carry the same paint data (they may
    /// differ in which resource is bound).
    pub open spec fn same_paint(self, other: ColorBrush) -> bool {
        match (self, other) {
            (ColorBrush::Solid(a), ColorBrush::Solid(b)) => a.color == b.color,
            (ColorBrush::Gradient(a), ColorBrush::Gradient(b)) => a.gradient_stops
                == b.gradient_stops && a.direction == b.direction,
            _ => false,
        }
    }

    /// The bound brush resource, if one has been created.
    pub fn get_brush(&self) -> (r: Option<u64>)
        ensures
            r == self.get_brush_spec(),
    {
        match self {
            ColorBrush::Solid(solid) => solid.brush,
            ColorBrush::Gradient(gradient) => gradient.brush,
        }
    }
}

} // verus!
