//! The grid configuration: a W by H lattice of cell coordinates, with the
//! spacing and offsets that place each cell in the scene.

use vstd::prelude::*;

verus! {

/// Immutable grid configuration. `width` and `height` span the lattice of
/// cells `(ix, iz)` with `ix < width`, `iz < height`; `base_size` is the cell
/// spacing and `offset_x` / `offset_z` shift the whole lattice, all in
/// micro-units.
#[derive(Clone, Copy, PartialEq, Eq, Structural, Debug)]
pub struct GridConfig {
    /// Number of cells along x.
    pub width: u32,
    /// Number of cells along z.
    pub height: u32,
    /// Cell spacing, micro-units.
    pub base_size: i64,
    /// Lattice shift along x, micro-units.
    pub offset_x: i64,
    /// Lattice shift along z, micro-units.
    pub offset_z: i64,
}

impl GridConfig {
    /// Bounds under which every position and count the instancer computes
    /// fits comfortably in machine integers.
    pub open spec fn wf(self) -> bool {
        &&& 1 <= self.width <= 1000
        &&& 1 <= self.height <= 1000
        &&& 0 <= self.base_size <= 1_000_000_000
        &&& -1_000_000_000_000 <= self.offset_x <= 1_000_000_000_000
        &&& -1_000_000_000_000 <= self.offset_z <= 1_000_000_000_000
    }

    /// Number of lattice cells.
    pub open spec fn cells(self) -> int {
        self.width * self.height
    }

    /// The x coordinate of column `ix`: `base_size * ix - offset_x`.
    pub open spec fn cell_x(self, ix: int) -> int {
        self.base_size * ix - self.offset_x
    }

    /// The z coordinate of row `iz`: `base_size * iz - offset_z`.
    pub open spec fn cell_z(self, iz: int) -> int {
        self.base_size * iz - self.offset_z
    }

    /// A well-formed grid holds at most a million cells.
    pub proof fn lemma_cells_bound(self)
        requires
            self.wf(),
        ensures
            1 <= self.cells() <= 1_000_000,
    {
        assert(1 <= self.width * self.height <= 1_000_000) by (nonlinear_arith)
            requires 1 <= self.width <= 1000, 1 <= self.height <= 1000,
        {}
    }

    /// Cell positions stay within two trillion micro-units of the origin.
    pub proof fn lemma_cell_x_bound(self, ix: int)
        requires
            self.wf(),
            0 <= ix < self.width,
        ensures
            -2_000_000_000_000 <= self.cell_x(ix) <= 2_000_000_000_000,
    {
        assert(0 <= self.base_size * ix <= 1_000_000_000_000) by (nonlinear_arith)
            requires 0 <= self.base_size <= 1_000_000_000, 0 <= ix < 1000,
        {}
    }

    /// Cell positions stay within two trillion micro-units of the origin.
    pub proof fn lemma_cell_z_bound(self, iz: int)
        requires
            self.wf(),
            0 <= iz < self.height,
        ensures
            -2_000_000_000_000 <= self.cell_z(iz) <= 2_000_000_000_000,
    {
        assert(0 <= self.base_size * iz <= 1_000_000_000_000) by (nonlinear_arith)
            requires 0 <= self.base_size <= 1_000_000_000, 0 <= iz < 1000,
        {}
    }

    /// Computes `cell_x` exactly.
    pub fn cell_x_at(&self, ix: u32) -> (r: i64)
        requires
            self.wf(),
            ix < self.width,
        ensures
            r as int == self.cell_x(ix as int),
    {
        proof {
            self.lemma_cell_x_bound(ix as int);
        }
        self.base_size * (ix as i64) - self.offset_x
    }

    /// Computes `cell_z` exactly.
    pub fn cell_z_at(&self, iz: u32) -> (r: i64)
        requires
            self.wf(),
            iz < self.height,
        ensures
            r as int == self.cell_z(iz as int),
    {
        proof {
            self.lemma_cell_z_bound(iz as int);
        }
        self.base_size * (iz as i64) - self.offset_z
    }
}

} // verus!
