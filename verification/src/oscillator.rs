//! Fixed-point periodic motion: the quadratic sine wave, the phase of an
//! instance's oscillator, and the vertical displacement it drives.
//!
//! The wave is a piecewise quadratic approximation of the sine over one turn,
//! exact at the four quarter points, so the crests and troughs the scene's
//! rules name (a button's lowest and highest height, the camera's extremes)
//! are reached exactly.

use vstd::prelude::*;

use crate::units::{
    BUTTON_Y_BASE, BUTTON_Y_SPAN, HALF_UNIT, HOLDER_Y_SPAN, OSC_SPEED_DEN, OSC_SPEED_NUM,
    PACE_MAX, QUARTER_UNIT, SIN_DIV, UNIT,
};

verus! {

use vstd::arithmetic::div_mod::{
    lemma_div_is_ordered, lemma_div_pos_is_pos, lemma_mod_bound, lemma_small_mod,
};

/// The sine of `s` micro-turns, in micro-units, for `0 <= s < UNIT`:
/// a quadratic arch over each half turn, exact at the quarter points
/// (`0, 0`), (`QUARTER_UNIT, UNIT`), (`HALF_UNIT, 0`) and
/// (`3 * QUARTER_UNIT, -UNIT`).
pub open spec fn sin_unit(s: int) -> int {
    if s <= HALF_UNIT {
        (s * (HALF_UNIT - s)) / (SIN_DIV as int)
    } else {
        -(((s - HALF_UNIT) * (UNIT - s)) / (SIN_DIV as int))
    }
}

/// The cosine of `t` micro-turns, in micro-units: the sine a quarter turn ahead.
pub open spec fn cos_unit(t: int) -> int {
    sin_unit((t + QUARTER_UNIT) % (UNIT as int))
}

/// The raised cosine `cos_unit(t) / 2 + 1/2`, in micro-units: the oscillator's
/// displacement for phase `t`, always within `[0, UNIT]`.
pub open spec fn wave(t: int) -> int {
    (cos_unit(t) + UNIT) / 2
}

/// The oscillator phase of an instance with the given pace and time offset at
/// `elapsed_us` microseconds: the fractional part of
/// `0.3 * pace * elapsed + time_offset`, in micro-turns.
pub open spec fn phase(pace: u64, time_offset: u64, elapsed_us: u64) -> int {
    ((OSC_SPEED_NUM * pace * elapsed_us) / (OSC_SPEED_DEN * UNIT) + time_offset) % (UNIT as int)
}

/// An instance's displacement `v` at `elapsed_us`: the wave at its phase.
pub open spec fn oscillator_v(pace: u64, time_offset: u64, elapsed_us: u64) -> int {
    wave(phase(pace, time_offset, elapsed_us))
}

/// A button's height at `elapsed_us`, in micro-units: `v * 1.3 - 1.7`.
pub open spec fn button_y(pace: u64, time_offset: u64, elapsed_us: u64) -> int {
    (oscillator_v(pace, time_offset, elapsed_us) * BUTTON_Y_SPAN) / (UNIT as int) + BUTTON_Y_BASE
}

/// A holder's height at `elapsed_us`, in micro-units: `v * 0.3`.
pub open spec fn holder_y(pace: u64, time_offset: u64, elapsed_us: u64) -> int {
    (oscillator_v(pace, time_offset, elapsed_us) * HOLDER_Y_SPAN) / (UNIT as int)
}

/// The sine stays within one whole of either sign over its domain.
pub proof fn lemma_sin_unit_range(s: int)
    requires
        0 <= s < UNIT,
    ensures
        -(UNIT as int) <= sin_unit(s) <= UNIT as int,
{
    if s <= HALF_UNIT {
        assert(0 <= s * (HALF_UNIT - s) <= 62_500_000_000) by (nonlinear_arith)
            requires 0 <= s <= HALF_UNIT as int,
        {}
        lemma_div_pos_is_pos(s * (HALF_UNIT - s), SIN_DIV as int);
        lemma_div_is_ordered(s * (HALF_UNIT - s), 62_500_000_000, SIN_DIV as int);
    } else {
        assert(0 <= (s - HALF_UNIT) * (UNIT - s) <= 62_500_000_000) by (nonlinear_arith)
            requires HALF_UNIT as int <= s <= UNIT as int,
        {}
        lemma_div_pos_is_pos((s - HALF_UNIT) * (UNIT - s), SIN_DIV as int);
        lemma_div_is_ordered((s - HALF_UNIT) * (UNIT - s), 62_500_000_000, SIN_DIV as int);
    }
}

/// The displacement `v` lies within `[0, 1]` for every phase: the first part
/// of the range law for the per-frame systems.
pub proof fn lemma_wave_range(t: int)
    requires
        0 <= t,
    ensures
        0 <= wave(t) <= UNIT as int,
{
    let shifted = (t + QUARTER_UNIT) % (UNIT as int);
    lemma_mod_bound(t + QUARTER_UNIT, UNIT as int);
    lemma_sin_unit_range(shifted);
}

/// The phase is a fraction of a turn whatever the inputs.
pub proof fn lemma_phase_range(pace: u64, time_offset: u64, elapsed_us: u64)
    ensures
        0 <= phase(pace, time_offset, elapsed_us) < UNIT as int,
{
    let raw = (OSC_SPEED_NUM * pace * elapsed_us) / (OSC_SPEED_DEN * UNIT) + time_offset;
    assert(0 <= OSC_SPEED_NUM * pace * elapsed_us) by (nonlinear_arith) {}
    lemma_div_pos_is_pos(OSC_SPEED_NUM * pace * elapsed_us, (OSC_SPEED_DEN * UNIT) as int);
    lemma_mod_bound(raw, UNIT as int);
}

/// At elapsed time zero every instance's phase is exactly its time offset,
/// so its displacement is exactly the wave at that offset.
pub proof fn lemma_phase_at_zero(pace: u64, time_offset: u64)
    requires
        time_offset < UNIT,
    ensures
        phase(pace, time_offset, 0) == time_offset,
        oscillator_v(pace, time_offset, 0) == wave(time_offset as int),
{
    assert(OSC_SPEED_NUM * pace * 0 == 0) by (nonlinear_arith) {}
    assert((0int) / ((OSC_SPEED_DEN * UNIT) as int) == 0);
    lemma_small_mod(time_offset as nat, UNIT as nat);
}

/// A button's height stays within `[-1.7, -0.4]` at all times:
/// the range law for buttons.
pub proof fn lemma_button_y_range(pace: u64, time_offset: u64, elapsed_us: u64)
    ensures
        BUTTON_Y_BASE as int <= button_y(pace, time_offset, elapsed_us) <= -400_000,
{
    lemma_phase_range(pace, time_offset, elapsed_us);
    let v = oscillator_v(pace, time_offset, elapsed_us);
    lemma_wave_range(phase(pace, time_offset, elapsed_us));
    lemma_div_pos_is_pos(v * BUTTON_Y_SPAN, UNIT as int);
    lemma_div_is_ordered(v * BUTTON_Y_SPAN, 1_300_000_000_000, UNIT as int);
}

/// A holder's height stays within `[0, 0.3]` at all times:
/// the range law for holders.
pub proof fn lemma_holder_y_range(pace: u64, time_offset: u64, elapsed_us: u64)
    ensures
        0 <= holder_y(pace, time_offset, elapsed_us) <= HOLDER_Y_SPAN as int,
{
    lemma_phase_range(pace, time_offset, elapsed_us);
    let v = oscillator_v(pace, time_offset, elapsed_us);
    lemma_wave_range(phase(pace, time_offset, elapsed_us));
    lemma_div_pos_is_pos(v * HOLDER_Y_SPAN, UNIT as int);
    lemma_div_is_ordered(v * HOLDER_Y_SPAN, 300_000_000_000, UNIT as int);
}

/// Computes `sin_unit` exactly.
pub fn sin_unit_at(s: u64) -> (r: i64)
    requires
        s < UNIT,
    ensures
        r as int == sin_unit(s as int),
        -(UNIT as i64) <= r <= UNIT as i64,
{
    proof {
        lemma_sin_unit_range(s as int);
    }
    if s <= HALF_UNIT {
        assert(s * (HALF_UNIT - s) <= 250_000_000_000) by (nonlinear_arith)
            requires s <= HALF_UNIT,
        {}
        let p: u64 = s * (HALF_UNIT - s);
        (p / SIN_DIV) as i64
    } else {
        assert((s - HALF_UNIT) * (UNIT - s) <= 250_000_000_000) by (nonlinear_arith)
            requires HALF_UNIT < s < UNIT,
        {}
        let q: u64 = (s - HALF_UNIT) * (UNIT - s);
        -((q / SIN_DIV) as i64)
    }
}

/// Computes the phase exactly. The pace bound is what the instancer draws and
/// keeps every intermediate product within machine range.
pub fn phase_at(pace: u64, time_offset: u64, elapsed_us: u64) -> (r: u64)
    requires
        pace < PACE_MAX,
    ensures
        r as int == phase(pace, time_offset, elapsed_us),
        r < UNIT,
{
    proof {
        lemma_phase_range(pace, time_offset, elapsed_us);
        assert((OSC_SPEED_NUM * pace) * elapsed_us <= 6_000_000 * 0xffff_ffff_ffff_ffffu64)
            by (nonlinear_arith)
            requires pace < PACE_MAX, elapsed_us <= 0xffff_ffff_ffff_ffffu64,
        {}
    }
    let scaled: u128 = (OSC_SPEED_NUM as u128) * (pace as u128) * (elapsed_us as u128);
    let t: u128 = (scaled / ((OSC_SPEED_DEN as u128) * (UNIT as u128)) + (time_offset as u128))
        % (UNIT as u128);
    t as u64
}

/// Computes the wave exactly.
pub fn wave_at(t: u64) -> (r: u64)
    requires
        t < UNIT,
    ensures
        r as int == wave(t as int),
        r <= UNIT,
{
    proof {
        lemma_wave_range(t as int);
        lemma_mod_bound(t as int + QUARTER_UNIT, UNIT as int);
    }
    let shifted: u64 = (t + QUARTER_UNIT) % UNIT;
    let c: i64 = sin_unit_at(shifted);
    ((c + UNIT as i64) / 2) as u64
}

/// Computes an instance's displacement `v` exactly.
pub fn oscillator_value(pace: u64, time_offset: u64, elapsed_us: u64) -> (r: u64)
    requires
        pace < PACE_MAX,
    ensures
        r as int == oscillator_v(pace, time_offset, elapsed_us),
        r <= UNIT,
{
    let t = phase_at(pace, time_offset, elapsed_us);
    wave_at(t)
}

/// Computes a button's height exactly; the result sits in `[-1.7, -0.4]`.
pub fn button_y_at(pace: u64, time_offset: u64, elapsed_us: u64) -> (r: i64)
    requires
        pace < PACE_MAX,
    ensures
        r as int == button_y(pace, time_offset, elapsed_us),
        BUTTON_Y_BASE <= r <= -400_000,
{
    proof {
        lemma_button_y_range(pace, time_offset, elapsed_us);
    }
    let v = oscillator_value(pace, time_offset, elapsed_us);
    let lift: u64 = (v * BUTTON_Y_SPAN) / UNIT;
    (lift as i64) + BUTTON_Y_BASE
}

/// Computes a holder's height exactly; the result sits in `[0, 0.3]`.
pub fn holder_y_at(pace: u64, time_offset: u64, elapsed_us: u64) -> (r: i64)
    requires
        pace < PACE_MAX,
    ensures
        r as int == holder_y(pace, time_offset, elapsed_us),
        0 <= r <= HOLDER_Y_SPAN as i64,
{
    proof {
        lemma_holder_y_range(pace, time_offset, elapsed_us);
    }
    let v = oscillator_value(pace, time_offset, elapsed_us);
    let lift: u64 = (v * HOLDER_Y_SPAN) / UNIT;
    lift as i64
}

} // verus!
