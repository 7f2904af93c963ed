//! Core logic of a desktop window-border overlay: a registry of per-window
//! border actors, a lifecycle state machine for each actor, a color/brush
//! resolver that turns a declarative color configuration into a renderable
//! paint descriptor, and a cubic-bezier easing generator for animations.
//!
//! All fractional quantities (color channels, unit-square coordinates,
//! easing values) are held in integer fixed point, so that every computation
//! here can be verified exactly.

pub mod angle;
pub mod border;
pub mod colors;
pub mod config;
pub mod easing;
pub mod registry;
pub mod rules;
pub mod text;
pub mod utils;

use vstd::prelude::*;

verus! {

/// Fixed-point unit for unit-square coordinates, gradient stop positions,
/// easing inputs and outputs: the value `1.0` is represented as `UNIT`.
pub const UNIT: i64 = 1_000_000;

/// One half in `UNIT` fixed point: the center of the unit square.
pub const HALF_UNIT: i64 = 500_000;

} // verus!
