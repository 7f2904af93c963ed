//! Border configuration: global settings, per-window rules, the resolution
//! of a rule against the global settings, and the conversion of a
//! configured corner radius. Fractional settings (border width, radius) are
//! held in `UNIT` fixed-point pixels.

use vstd::prelude::*;

use crate::colors::{ColorBrushConfig, GradientBrushConfig, GradientDirection};
use crate::UNIT;

verus! {

/// The radius value meaning "follow the platform's corner preference".
pub const RADIUS_SYSTEM: i64 = -1_000_000;

/// The widest accepted border width and radius, in `UNIT` fixed-point
/// pixels (one thousand pixels).
pub const MAX_DIMENSION: i64 = 1_000_000_000;

/// The default initialization delay in milliseconds for windows that appear
/// while the process runs.
pub const DEFAULT_INITIALIZE_DELAY: u64 = 250;

/// The default delay in milliseconds before rendering resumes after a
/// window is restored from the minimized state.
pub const DEFAULT_UNMINIMIZE_DELAY: u64 = 200;

/// Which window text a rule matches on.
#[derive(Clone, Copy, PartialEq, Eq, Structural, Debug)]
pub enum MatchKind {
    Title,
    Class,
}

/// How a rule's pattern is compared with the window text.
#[derive(Clone, Copy, PartialEq, Eq, Structural, Debug)]
pub enum MatchStrategy {
    Equals,
    Contains,
    Regex,
}

/// The control points of a cubic easing curve, in `UNIT` fixed point.
#[derive(Clone, Copy, PartialEq, Eq, Structural, Debug)]
pub struct AnimationParams {
    pub x1: i64,
    pub y1: i64,
    pub x2: i64,
    pub y2: i64,
}

/// One per-window rule: how to recognize the window, and the settings that
/// override the global ones for it.
#[derive(Debug)]
pub struct WindowRule {
    pub kind: Option<MatchKind>,
    pub pattern: Option<String>,
    pub strategy: Option<MatchStrategy>,
    pub enabled: Option<bool>,
    pub border_width: Option<i64>,
    pub border_offset: Option<i32>,
    pub border_radius: Option<i64>,
    pub active_color: Option<ColorBrushConfig>,
    pub inactive_color: Option<ColorBrushConfig>,
    pub animations: Option<AnimationParams>,
    pub initialize_delay: Option<u64>,
    pub unminimize_delay: Option<u64>,
}

/// The global settings a rule falls back to.
#[derive(Debug)]
pub struct GlobalConfig {
    pub border_width: i64,
    pub border_offset: i32,
    pub border_radius: i64,
    pub active_color: ColorBrushConfig,
    pub inactive_color: ColorBrushConfig,
    pub animations: Option<AnimationParams>,
    pub initialize_delay: Option<u64>,
    pub unminimize_delay: Option<u64>,
}

/// The whole configuration: global settings and the window rules in order.
#[derive(Debug)]
pub struct Config {
    pub global: GlobalConfig,
    pub window_rules: Vec<WindowRule>,
}

/// True when two optional strings hold the same text.
pub open spec fn same_opt_string(a: Option<String>, b: Option<String>) -> bool {
    match (a, b) {
        (Some(x), Some(y)) => x@ == y@,
        (None, None) => true,
        _ => false,
    }
}

/// True when two gradient directions describe the same direction.
pub open spec fn same_direction(a: GradientDirection, b: GradientDirection) -> bool {
    match (a, b) {
        (GradientDirection::Angle(x), GradientDirection::Angle(y)) => x@ == y@,
        (GradientDirection::Coordinates(x), GradientDirection::Coordinates(y)) => x == y,
        _ => false,
    }
}

/// True when two color configurations hold the same tokens and direction.
pub open spec fn same_color_config(a: ColorBrushConfig, b: ColorBrushConfig) -> bool {
    match (a, b) {
        (ColorBrushConfig::Solid(x), ColorBrushConfig::Solid(y)) => x@ == y@,
        (ColorBrushConfig::Gradient(x), ColorBrushConfig::Gradient(y)) => {
            &&& x.colors@.len() == y.colors@.len()
            &&& (forall|i: int| 0 <= i < x.colors@.len() ==> x.colors@[i]@ == #[trigger] y.colors@[i]@)
            &&& same_direction(x.direction, y.direction)
        },
        _ => false,
    }
}

/// True when two optional color configurations agree.
pub open spec fn same_opt_color_config(
    a: Option<ColorBrushConfig>,
    b: Option<ColorBrushConfig>,
) -> bool {
    match (a, b) {
        (Some(x), Some(y)) => same_color_config(x, y),
        (None, None) => true,
        _ => false,
    }
}

/// True when two rules match the same windows and carry the same settings.
pub open spec fn same_rule(a: WindowRule, b: WindowRule) -> bool {
    &&& a.kind == b.kind
    &&& same_opt_string(a.pattern, b.pattern)
    &&& a.strategy == b.strategy
    &&& a.enabled == b.enabled
    &&& a.border_width == b.border_width
    &&& a.border_offset == b.border_offset
    &&& a.border_radius == b.border_radius
    &&& same_opt_color_config(a.active_color, b.active_color)
    &&& same_opt_color_config(a.inactive_color, b.inactive_color)
    &&& a.animations == b.animations
    &&& a.initialize_delay == b.initialize_delay
    &&& a.unminimize_delay == b.unminimize_delay
}

impl Clone for GradientDirection {
    fn clone(&self) -> (r: Self)
        ensures
            same_direction(r, *self),
    {
        match self {
            GradientDirection::Angle(a) => GradientDirection::Angle(a.clone()),
            GradientDirection::Coordinates(c) => GradientDirection::Coordinates(*c),
        }
    }
}

impl Clone for ColorBrushConfig {
    fn clone(&self) -> (r: Self)
        ensures
            same_color_config(r, *self),
    {
        match self {
            ColorBrushConfig::Solid(s) => ColorBrushConfig::Solid(s.clone()),
            ColorBrushConfig::Gradient(g) => {
                let mut colors: Vec<String> = Vec::new();
                let n = g.colors.len();
                let mut i: usize = 0;
                while i < n
                    invariant
                        i <= n,
                        n == g.colors@.len(),
                        colors@.len() == i as int,
                        forall|j: int| 0 <= j < i ==> colors@[j]@ == #[trigger] g.colors@[j]@,
                    decreases n - i,
                {
                    colors.push(g.colors[i].clone());
                    i = i + 1;
                }
                ColorBrushConfig::Gradient(
                    GradientBrushConfig { colors, direction: g.direction.clone() },
                )
            },
        }
    }
}

impl Clone for WindowRule {
    fn clone(&self) -> (r: Self)
        ensures
            same_rule(r, *self),
    {
        WindowRule {
            kind: self.kind,
            pattern: match &self.pattern {
                Some(p) => Some(p.clone()),
                None => None,
            },
            strategy: self.strategy,
            enabled: self.enabled,
            border_width: self.border_width,
            border_offset: self.border_offset,
            border_radius: self.border_radius,
            active_color: match &self.active_color {
                Some(c) => Some(c.clone()),
                None => None,
            },
            inactive_color: match &self.inactive_color {
                Some(c) => Some(c.clone()),
                None => None,
            },
            animations: self.animations,
            initialize_delay: self.initialize_delay,
            unminimize_delay: self.unminimize_delay,
        }
    }
}

impl Default for WindowRule {
    /// The rule that matches nothing and overrides nothing.
    fn default() -> (r: Self)
        ensures
            r.kind is None,
            r.pattern is None,
            r.strategy is None,
            r.enabled is None,
            r.border_width is None,
            r.border_offset is None,
            r.border_radius is None,
            r.active_color is None,
            r.inactive_color is None,
            r.animations is None,
            r.initialize_delay is None,
            r.unminimize_delay is None,
    {
        WindowRule {
            kind: None,
            pattern: None,
            strategy: None,
            enabled: None,
            border_width: None,
            border_offset: None,
            border_radius: None,
            active_color: None,
            inactive_color: None,
            animations: None,
            initialize_delay: None,
            unminimize_delay: None,
        }
    }
}

/// A color configuration that agrees with a well-formed one is well formed.
pub proof fn lemma_same_color_config_well_formed(a: ColorBrushConfig, b: ColorBrushConfig)
    requires
        same_color_config(a, b),
        b.well_formed(),
    ensures
        a.well_formed(),
{
}

/// Color configurations that agree resolve to the same paint descriptor.
pub proof fn lemma_same_color_config_resolves(
    a: ColorBrushConfig,
    b: ColorBrushConfig,
    is_active: bool,
    colorization: u32,
    r: crate::colors::ColorBrush,
)
    requires
        same_color_config(a, b),
        crate::colors::resolves_to(a, is_active, colorization, r),
    ensures
        crate::colors::resolves_to(b, is_active, colorization, r),
{
    match (a, b) {
        (ColorBrushConfig::Gradient(x), ColorBrushConfig::Gradient(y)) => {
            if x.colors@.len() != 1 {
                assert(crate::colors::spec_resolve_direction(x.direction)
                    == crate::colors::spec_resolve_direction(y.direction));
                assert(crate::colors::spec_gradient_stops(x.colors@, is_active, colorization)
                    =~= crate::colors::spec_gradient_stops(y.colors@, is_active, colorization));
            }
        },
        _ => {},
    }
}

/// An optional override, or the fallback.
pub open spec fn spec_or<T>(o: Option<T>, d: T) -> T {
    match o {
        Some(v) => v,
        None => d,
    }
}

/// The settings that govern one border, after the rule's overrides are laid
/// over the global settings.
#[derive(Clone, Debug)]
pub struct EffectiveConfig {
    pub border_width: i64,
    pub border_offset: i32,
    pub border_radius: i64,
    pub active_color: ColorBrushConfig,
    pub inactive_color: ColorBrushConfig,
    pub animations: Option<AnimationParams>,
    pub initialize_delay: u64,
    pub unminimize_delay: u64,
}

/// Lays a rule's overrides over the global settings. `was_initial` says
/// whether the window was already present when the process started: such a
/// window gets no initialization delay.
pub fn resolve_effective_config(
    rule: &WindowRule,
    global: &GlobalConfig,
    was_initial: bool,
) -> (r: EffectiveConfig)
    ensures
        r.border_width == spec_or(rule.border_width, global.border_width),
        r.border_offset == spec_or(rule.border_offset, global.border_offset),
        r.border_radius == spec_or(rule.border_radius, global.border_radius),
        same_color_config(
            r.active_color,
            spec_or(rule.active_color, global.active_color),
        ),
        same_color_config(
            r.inactive_color,
            spec_or(rule.inactive_color, global.inactive_color),
        ),
        r.animations == (if rule.animations is Some {
            rule.animations
        } else {
            global.animations
        }),
        r.initialize_delay == (if was_initial {
            0u64
        } else {
            spec_or(rule.initialize_delay, spec_or(global.initialize_delay, DEFAULT_INITIALIZE_DELAY))
        }),
        r.unminimize_delay == spec_or(
            rule.unminimize_delay,
            spec_or(global.unminimize_delay, DEFAULT_UNMINIMIZE_DELAY),
        ),
{
    let active_color = match &rule.active_color {
        Some(c) => c.clone(),
        None => global.active_color.clone(),
    };
    let inactive_color = match &rule.inactive_color {
        Some(c) => c.clone(),
        None => global.inactive_color.clone(),
    };
    let initialize_delay = if was_initial {
        0
    } else {
        match rule.initialize_delay {
            Some(d) => d,
            None => match global.initialize_delay {
                Some(d) => d,
                None => DEFAULT_INITIALIZE_DELAY,
            },
        }
    };
    EffectiveConfig {
        border_width: match rule.border_width {
            Some(w) => w,
            None => global.border_width,
        },
        border_offset: match rule.border_offset {
            Some(o) => o,
            None => global.border_offset,
        },
        border_radius: match rule.border_radius {
            Some(rd) => rd,
            None => global.border_radius,
        },
        active_color,
        inactive_color,
        animations: match rule.animations {
            Some(a) => Some(a),
            None => global.animations,
        },
        initialize_delay,
        unminimize_delay: match rule.unminimize_delay {
            Some(d) => d,
            None => match global.unminimize_delay {
                Some(d) => d,
                None => DEFAULT_UNMINIMIZE_DELAY,
            },
        },
    }
}

/// The platform's corner-rounding preference for a window, as reported by
/// the compositor.
#[derive(Clone, Copy, PartialEq, Eq, Structural, Debug)]
pub enum CornerPreference {
    Default,
    DoNotRound,
    Round,
    RoundSmall,
}

/// The border width in whole pixels at the given dots-per-inch scale:
/// `width * dpi / 96`, truncated.
pub fn compute_border_width(config_width: i64, dpi: u32) -> (r: i32)
    requires
        0 <= config_width <= MAX_DIMENSION,
        1 <= dpi <= 10_000,
    ensures
        r == config_width * dpi / (96 * UNIT),
{
    proof {
        assert(config_width * dpi <= 10_000_000_000_000) by (nonlinear_arith)
            requires
                0 <= config_width <= 1_000_000_000,
                1 <= dpi <= 10_000,
        ;
        crate::angle::lemma_udiv_bound(config_width * dpi, 96_000_000, 200_000);
    }
    let scaled = (config_width as u64) * (dpi as u64);
    (scaled / 96_000_000) as i32
}

/// The corner radius (in `UNIT` fixed-point pixels) one configured radius
/// resolves to. The sentinel `RADIUS_SYSTEM` follows the platform's corner
/// preference: no rounding gives zero, small rounding four pixels and
/// ordinary rounding eight, each scaled by dpi and widened by half the
/// border width; any other configured radius is scaled by dpi.
pub open spec fn spec_convert_config_radius(
    config_width: int,
    config_radius: int,
    pref: CornerPreference,
    dpi: int,
) -> int {
    if config_radius == RADIUS_SYSTEM {
        match pref {
            CornerPreference::DoNotRound => 0,
            CornerPreference::RoundSmall => 4 * dpi * UNIT / 96 + config_width * UNIT / 2,
            _ => 8 * dpi * UNIT / 96 + config_width * UNIT / 2,
        }
    } else {
        config_radius * dpi / 96
    }
}

/// Resolves a configured corner radius against the platform's corner
/// preference. `config_width` is the border width in whole pixels.
pub fn convert_config_radius(
    config_width: i32,
    config_radius: i64,
    corner_preference: CornerPreference,
    dpi: u32,
) -> (r: i64)
    requires
        0 <= config_width <= 200_000,
        config_radius == RADIUS_SYSTEM || 0 <= config_radius <= MAX_DIMENSION,
        1 <= dpi <= 10_000,
    ensures
        r == spec_convert_config_radius(
            config_width as int,
            config_radius as int,
            corner_preference,
            dpi as int,
        ),
{
    if config_radius == RADIUS_SYSTEM {
        let base: u64 = match corner_preference {
            CornerPreference::DoNotRound => {
                return 0;
            },
            CornerPreference::RoundSmall => 4 * (dpi as u64) * 1_000_000 / 96,
            _ => 8 * (dpi as u64) * 1_000_000 / 96,
        };
        proof {
            crate::angle::lemma_udiv_bound(8 * dpi * 1_000_000, 96, 850_000_000);
            crate::angle::lemma_udiv_bound(4 * dpi * 1_000_000, 96, 850_000_000);
        }
        let half_width = (config_width as u64) * 1_000_000 / 2;
        base as i64 + half_width as i64
    } else {
        proof {
            assert(config_radius * dpi <= 10_000_000_000_000) by (nonlinear_arith)
                requires
                    0 <= config_radius <= 1_000_000_000,
                    1 <= dpi <= 10_000,
            ;
            vstd::arithmetic::div_mod::lemma_div_nonincreasing(config_radius * dpi, 96);
        }
        let scaled = (config_radius as u64) * (dpi as u64);
        (scaled / 96) as i64
    }
}

} // verus!
