//! The single camera and its orbit: a fixed horizontal position and look
//! target set at spawn, and a vertical swing of period twenty seconds driven
//! every frame by the elapsed time.

use vstd::prelude::*;

use crate::oscillator::{lemma_sin_unit_range, sin_unit, sin_unit_at};
use crate::units::{
    CAMERA_AMPLITUDE, CAMERA_BASE_Y, CAMERA_PERIOD_US, CAMERA_PHASE_STEP_US, CAMERA_TARGET_X,
    CAMERA_TARGET_Y, CAMERA_TARGET_Z, CAMERA_X, CAMERA_Z, UNIT,
};

verus! {

use vstd::arithmetic::div_mod::{
    lemma_div_is_ordered, lemma_div_multiples_vanish, lemma_div_pos_is_pos,
    lemma_mod_add_multiples_vanish, lemma_mod_bound,
};

/// The fraction of the orbit completed at `elapsed_us` microseconds, in
/// micro-turns: `(elapsed mod period) / period`, scaled to `[0, UNIT)`.
pub open spec fn camera_turn(elapsed_us: int) -> int {
    (elapsed_us % (CAMERA_PERIOD_US as int)) / (CAMERA_PHASE_STEP_US as int)
}

/// The camera's height at `elapsed_us`, in micro-units:
/// `sin(turn) * amplitude + base`.
pub open spec fn camera_y_at(elapsed_us: int) -> int {
    (sin_unit(camera_turn(elapsed_us)) * CAMERA_AMPLITUDE) / (UNIT as int) + CAMERA_BASE_Y
}

/// The orbit fraction is a fraction: it stays within one turn.
pub proof fn lemma_camera_turn_range(elapsed_us: int)
    requires
        0 <= elapsed_us,
    ensures
        0 <= camera_turn(elapsed_us) < UNIT as int,
{
    lemma_mod_bound(elapsed_us, CAMERA_PERIOD_US as int);
    let m = elapsed_us % (CAMERA_PERIOD_US as int);
    lemma_div_pos_is_pos(m, CAMERA_PHASE_STEP_US as int);
    lemma_div_is_ordered(m, CAMERA_PERIOD_US - 1, CAMERA_PHASE_STEP_US as int);
}

/// The camera's height stays within `[9, 11]` for every elapsed time:
/// the range half of the camera law.
pub proof fn lemma_camera_y_range(elapsed_us: int)
    requires
        0 <= elapsed_us,
    ensures
        CAMERA_BASE_Y - CAMERA_AMPLITUDE <= camera_y_at(elapsed_us)
            <= CAMERA_BASE_Y + CAMERA_AMPLITUDE,
{
    lemma_camera_turn_range(elapsed_us);
    let s = sin_unit(camera_turn(elapsed_us));
    lemma_sin_unit_range(camera_turn(elapsed_us));
    lemma_div_multiples_vanish(s, UNIT as int);
    assert(s * CAMERA_AMPLITUDE == (UNIT as int) * s);
}

/// The camera's motion is periodic with period twenty seconds:
/// the periodicity half of the camera law.
pub proof fn lemma_camera_y_periodic(elapsed_us: int)
    requires
        0 <= elapsed_us,
    ensures
        camera_y_at(elapsed_us + CAMERA_PERIOD_US) == camera_y_at(elapsed_us),
{
    lemma_mod_add_multiples_vanish(elapsed_us, CAMERA_PERIOD_US as int);
}

/// The camera: horizontal position and look target are fixed at spawn; only
/// the height moves, and only under `orbit`.
#[derive(Clone, Copy, PartialEq, Eq, Structural, Debug)]
pub struct CameraState {
    /// Fixed horizontal position, micro-units.
    pub x: i64,
    /// Height, micro-units; the one field the orbit mutates.
    pub y: i64,
    /// Fixed horizontal position, micro-units.
    pub z: i64,
    /// Fixed look target, micro-units.
    pub target_x: i64,
    /// Fixed look target, micro-units.
    pub target_y: i64,
    /// Fixed look target, micro-units.
    pub target_z: i64,
}

impl CameraState {
    /// The camera sits at its fixed station and its height stays within the
    /// orbit's range.
    pub open spec fn wf(self) -> bool {
        &&& self.x == CAMERA_X
        &&& self.z == CAMERA_Z
        &&& self.target_x == CAMERA_TARGET_X
        &&& self.target_y == CAMERA_TARGET_Y
        &&& self.target_z == CAMERA_TARGET_Z
        &&& CAMERA_BASE_Y - CAMERA_AMPLITUDE <= self.y <= CAMERA_BASE_Y + CAMERA_AMPLITUDE
    }

    /// Creates the camera at its station, at base height, looking at the
    /// fixed target.
    pub fn spawn() -> (r: CameraState)
        ensures
            r.wf(),
            r.y == CAMERA_BASE_Y,
    {
        CameraState {
            x: CAMERA_X,
            y: CAMERA_BASE_Y,
            z: CAMERA_Z,
            target_x: CAMERA_TARGET_X,
            target_y: CAMERA_TARGET_Y,
            target_z: CAMERA_TARGET_Z,
        }
    }

    /// One frame of the orbit: sets the height to `camera_y_at(elapsed_us)`
    /// and touches nothing else.
    pub fn orbit(&mut self, elapsed_us: u64)
        requires
            old(self).wf(),
        ensures
            final(self).wf(),
            final(self).y as int == camera_y_at(elapsed_us as int),
            final(self).x == old(self).x,
            final(self).z == old(self).z,
            final(self).target_x == old(self).target_x,
            final(self).target_y == old(self).target_y,
            final(self).target_z == old(self).target_z,
    {
        proof {
            lemma_camera_turn_range(elapsed_us as int);
            lemma_camera_y_range(elapsed_us as int);
            lemma_sin_unit_range(camera_turn(elapsed_us as int));
            lemma_div_multiples_vanish(sin_unit(camera_turn(elapsed_us as int)), UNIT as int);
            assert(sin_unit(camera_turn(elapsed_us as int)) * CAMERA_AMPLITUDE
                == (UNIT as int) * sin_unit(camera_turn(elapsed_us as int)));
        }
        let turn: u64 = (elapsed_us % CAMERA_PERIOD_US) / CAMERA_PHASE_STEP_US;
        let s: i64 = sin_unit_at(turn);
        self.y = s + CAMERA_BASE_Y;
    }
}

} // verus!
