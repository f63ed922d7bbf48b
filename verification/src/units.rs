//! Fixed-point units and the scene's fixed numeric constants.

use vstd::prelude::*;

verus! {

/// One whole in micro-units: the integer `n` stands for the real `n / UNIT`.
pub const UNIT: u64 = 1_000_000;

/// Half a whole, in micro-units.
pub const HALF_UNIT: u64 = 500_000;

/// A quarter of a whole, in micro-units.
pub const QUARTER_UNIT: u64 = 250_000;

/// Divisor of the quadratic half-wave `s * (HALF_UNIT - s) / SIN_DIV`, chosen
/// so that the crest `s == QUARTER_UNIT` lands exactly on `UNIT`.
pub const SIN_DIV: u64 = 62_500;

/// Smallest pace (per-instance oscillation speed multiplier) ever drawn,
/// in micro-units: one half.
pub const PACE_MIN: u64 = 500_000;

/// Exclusive upper bound on a drawn pace, in micro-units: two.
pub const PACE_MAX: u64 = 2_000_000;

/// Numerator of the global oscillator speed factor (three tenths).
pub const OSC_SPEED_NUM: u64 = 3;

/// Denominator of the global oscillator speed factor (three tenths).
pub const OSC_SPEED_DEN: u64 = 10;

/// Span of a button's vertical travel, in micro-units: 1.3.
pub const BUTTON_Y_SPAN: u64 = 1_300_000;

/// A button's lowest height, in micro-units: -1.7.
pub const BUTTON_Y_BASE: i64 = -1_700_000;

/// Span of a holder's vertical travel, in micro-units: 0.3.
pub const HOLDER_Y_SPAN: u64 = 300_000;

/// Numerator of the factor a holder's color keeps of the button's
/// (darkening by 0.3 keeps seven tenths).
pub const DARKEN_KEEP_NUM: u64 = 7;

/// Denominator of the darkening keep factor.
pub const DARKEN_KEEP_DEN: u64 = 10;

/// Uniform shrink applied to every spawned instance, in micro-units: 0.1.
pub const INSTANCE_SCALE: u64 = 100_000;

/// The camera's full orbit period, in microseconds: twenty seconds.
pub const CAMERA_PERIOD_US: u64 = 20_000_000;

/// Microseconds per micro-unit of orbit phase: `CAMERA_PERIOD_US / UNIT`.
pub const CAMERA_PHASE_STEP_US: u64 = 20;

/// The camera's vertical swing amplitude, in micro-units: 1.0.
pub const CAMERA_AMPLITUDE: i64 = 1_000_000;

/// The camera's base height, in micro-units: 10.0.
pub const CAMERA_BASE_Y: i64 = 10_000_000;

/// The camera's fixed horizontal position, in micro-units: x = -7.0.
pub const CAMERA_X: i64 = -7_000_000;

/// The camera's fixed horizontal position, in micro-units: z = 7.0.
pub const CAMERA_Z: i64 = 7_000_000;

/// The point the camera looks at, in micro-units: (0, 1, 0).
pub const CAMERA_TARGET_X: i64 = 0;

/// The look target's height, in micro-units: 1.0.
pub const CAMERA_TARGET_Y: i64 = 1_000_000;

/// The look target's z coordinate, in micro-units.
pub const CAMERA_TARGET_Z: i64 = 0;

} // verus!
