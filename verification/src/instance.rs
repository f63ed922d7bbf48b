//! A spawned instance: one button or holder, with its fixed spawn data and
//! the height its oscillator rewrites every frame.

use vstd::prelude::*;

use crate::oscillator::{button_y, button_y_at, holder_y, holder_y_at};
use crate::units::{
    BUTTON_Y_BASE, DARKEN_KEEP_DEN, DARKEN_KEEP_NUM, HOLDER_Y_SPAN, INSTANCE_SCALE, PACE_MAX,
    PACE_MIN, UNIT,
};

verus! {

/// Which of the two primitives an instance renders.
#[derive(Clone, Copy, PartialEq, Eq, Structural, Debug)]
pub enum InstanceKind {
    Button,
    Holder,
}

/// One spawned object. Everything but `y` is fixed at spawn; `y` alone is
/// rewritten every frame from the elapsed time and the stored phase
/// parameters. Colors are RGB channels in `[0, 1)`, all fixed-point
/// micro-units. The rotation is identity for every instance and never
/// changes, so it is not recorded.
#[derive(Clone, Copy, PartialEq, Eq, Structural, Debug)]
pub struct AnimatedInstance {
    /// Button or holder.
    pub kind: InstanceKind,
    /// Handle of the mesh this instance renders.
    pub mesh: u64,
    /// Fixed at spawn, micro-units.
    pub x: i64,
    /// Rewritten every frame, micro-units.
    pub y: i64,
    /// Fixed at spawn, micro-units.
    pub z: i64,
    /// Red channel, micro-units.
    pub color_r: u64,
    /// Green channel, micro-units.
    pub color_g: u64,
    /// Blue channel, micro-units.
    pub color_b: u64,
    /// Phase offset of the oscillator, micro-units, in `[0, 1)`.
    pub time_offset: u64,
    /// Speed multiplier of the oscillator, micro-units, in `[0.5, 2)`.
    pub pace: u64,
    /// Uniform shrink, micro-units; always `INSTANCE_SCALE`.
    pub scale: u64,
}

/// The channel a holder keeps of a button channel `c`: darkening by 0.3
/// keeps seven tenths.
pub open spec fn darken(c: u64) -> u64 {
    ((c * DARKEN_KEEP_NUM) / (DARKEN_KEEP_DEN as int)) as u64
}

/// Computes `darken` exactly; a valid channel stays a valid channel.
pub fn darken_at(c: u64) -> (r: u64)
    requires
        c < UNIT,
    ensures
        r == darken(c),
        r < UNIT,
{
    (c * DARKEN_KEEP_NUM) / DARKEN_KEEP_DEN
}

/// Equality of everything the oscillator never touches: all fields but `y`.
pub open spec fn same_base(a: AnimatedInstance, b: AnimatedInstance) -> bool {
    &&& a.kind == b.kind
    &&& a.mesh == b.mesh
    &&& a.x == b.x
    &&& a.z == b.z
    &&& a.color_r == b.color_r
    &&& a.color_g == b.color_g
    &&& a.color_b == b.color_b
    &&& a.time_offset == b.time_offset
    &&& a.pace == b.pace
    &&& a.scale == b.scale
}

impl AnimatedInstance {
    /// The ranges every drawn parameter satisfies: colors and time offset in
    /// `[0, 1)`, pace in `[0.5, 2)`, the fixed shrink.
    pub open spec fn wf(self) -> bool {
        &&& self.color_r < UNIT
        &&& self.color_g < UNIT
        &&& self.color_b < UNIT
        &&& self.time_offset < UNIT
        &&& PACE_MIN <= self.pace < PACE_MAX
        &&& self.scale == INSTANCE_SCALE
    }

    /// The height this instance's oscillator assigns at `elapsed_us`.
    pub open spec fn y_spec(self, elapsed_us: u64) -> int {
        match self.kind {
            InstanceKind::Button => button_y(self.pace, self.time_offset, elapsed_us),
            InstanceKind::Holder => holder_y(self.pace, self.time_offset, elapsed_us),
        }
    }

    /// The height sits in its kind's band: `[-1.7, -0.4]` for a button,
    /// `[0, 0.3]` for a holder.
    pub open spec fn y_in_band(self) -> bool {
        match self.kind {
            InstanceKind::Button => BUTTON_Y_BASE <= self.y <= -400_000,
            InstanceKind::Holder => 0 <= self.y <= HOLDER_Y_SPAN,
        }
    }

    /// One frame of the oscillator: rewrites `y` from the elapsed time and
    /// the stored phase parameters, touching nothing else.
    pub fn update(&mut self, elapsed_us: u64)
        requires
            old(self).wf(),
        ensures
            same_base(*final(self), *old(self)),
            final(self).wf(),
            final(self).y as int == old(self).y_spec(elapsed_us),
            final(self).y_in_band(),
    {
        match self.kind {
            InstanceKind::Button => {
                self.y = button_y_at(self.pace, self.time_offset, elapsed_us);
            },
            InstanceKind::Holder => {
                self.y = holder_y_at(self.pace, self.time_offset, elapsed_us);
            },
        }
    }
}

} // verus!
