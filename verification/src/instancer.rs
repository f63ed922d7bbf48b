//! The one-shot scene instancer: turns a grid configuration, two mesh
//! handles and a seeded random stream into the paired button/holder
//! instances of every lattice cell.
//!
//! Cells are traversed in row-major order, `ix` outer and `iz` inner, and
//! each cell draws exactly seven values in a fixed order: the shared color
//! channels r, g, b, then the button's time offset and pace, then the
//! holder's time offset and pace. `scene_spec` states the whole scene as a
//! function of the configuration, the seed and the stream's prior history
//! alone, which is what makes instancing reproducible.

use vstd::prelude::*;

use crate::grid::GridConfig;
use crate::instance::{darken, AnimatedInstance, InstanceKind};
use crate::rng::{stream_draw, SeededRng};
use crate::units::{INSTANCE_SCALE, PACE_MAX, PACE_MIN, UNIT};

verus! {

use vstd::arithmetic::div_mod::{
    lemma_fundamental_div_mod_converse_div, lemma_fundamental_div_mod_converse_mod,
    lemma_mod_multiples_vanish,
};

/// Draws consumed per lattice cell.
pub const DRAWS_PER_CELL: usize = 7;

/// The range of the `i`-th draw overall: positions 4 and 6 within a cell are
/// paces, drawn over `[0.5, 2)`; every other position is a color channel or
/// a time offset, drawn over `[0, 1)`.
pub open spec fn range_at(i: int) -> (u64, u64) {
    if i % (DRAWS_PER_CELL as int) == 4 || i % (DRAWS_PER_CELL as int) == 6 {
        (PACE_MIN, PACE_MAX)
    } else {
        (0u64, UNIT)
    }
}

/// The first `n` draw ranges, in order.
pub open spec fn ranges_upto(n: int) -> Seq<(u64, u64)> {
    Seq::new(n as nat, |i: int| range_at(i))
}

/// The `i`-th value the instancer draws from a stream with seed `seed` and
/// prior history `past0`: a function of those alone.
pub open spec fn draw_value(seed: Seq<u8>, past0: Seq<(u64, u64)>, i: int) -> u64 {
    stream_draw(seed, past0 + ranges_upto(i), range_at(i).0, range_at(i).1)
}

/// The button spawned for cell `k` (in row-major order): lattice position,
/// the cell's shared color, its own time offset and pace, height zero.
pub open spec fn button_at(
    cfg: GridConfig,
    seed: Seq<u8>,
    past0: Seq<(u64, u64)>,
    button_mesh: u64,
    k: int,
) -> AnimatedInstance {
    AnimatedInstance {
        kind: InstanceKind::Button,
        mesh: button_mesh,
        x: cfg.cell_x(k / (cfg.height as int)) as i64,
        y: 0,
        z: cfg.cell_z(k % (cfg.height as int)) as i64,
        color_r: draw_value(seed, past0, 7 * k),
        color_g: draw_value(seed, past0, 7 * k + 1),
        color_b: draw_value(seed, past0, 7 * k + 2),
        time_offset: draw_value(seed, past0, 7 * k + 3),
        pace: draw_value(seed, past0, 7 * k + 4),
        scale: INSTANCE_SCALE,
    }
}

/// The holder spawned for cell `k`: same lattice position, the cell's color
/// darkened, its own time offset and pace, height zero.
pub open spec fn holder_at(
    cfg: GridConfig,
    seed: Seq<u8>,
    past0: Seq<(u64, u64)>,
    holder_mesh: u64,
    k: int,
) -> AnimatedInstance {
    AnimatedInstance {
        kind: InstanceKind::Holder,
        mesh: holder_mesh,
        x: cfg.cell_x(k / (cfg.height as int)) as i64,
        y: 0,
        z: cfg.cell_z(k % (cfg.height as int)) as i64,
        color_r: darken(draw_value(seed, past0, 7 * k)),
        color_g: darken(draw_value(seed, past0, 7 * k + 1)),
        color_b: darken(draw_value(seed, past0, 7 * k + 2)),
        time_offset: draw_value(seed, past0, 7 * k + 5),
        pace: draw_value(seed, past0, 7 * k + 6),
        scale: INSTANCE_SCALE,
    }
}

/// The whole spawned scene, in spawn order: the button then the holder of
/// cell 0, then of cell 1, and so on. A function of the configuration, the
/// seed, the stream's prior history and the two mesh handles alone.
pub open spec fn scene_spec(
    cfg: GridConfig,
    seed: Seq<u8>,
    past0: Seq<(u64, u64)>,
    button_mesh: u64,
    holder_mesh: u64,
) -> Seq<AnimatedInstance> {
    Seq::new(
        (2 * cfg.cells()) as nat,
        |j: int|
            if j % 2 == 0 {
                button_at(cfg, seed, past0, button_mesh, j / 2)
            } else {
                holder_at(cfg, seed, past0, holder_mesh, j / 2)
            },
    )
}

/// Draws the next `n` values of the instancer's plan from the stream.
pub fn draw_params(rng: &mut SeededRng, n: usize) -> (r: Vec<u64>)
    ensures
        r@.len() == n,
        forall|i: int| 0 <= i < n ==> #[trigger] r@[i] == draw_value(
            old(rng).seed_view(),
            old(rng).drawn(),
            i,
        ),
        forall|i: int| 0 <= i < n ==> range_at(i).0 <= #[trigger] r@[i] < range_at(i).1,
        final(rng).seed_view() == old(rng).seed_view(),
        final(rng).drawn() == old(rng).drawn() + ranges_upto(n as int),
{
    let ghost seed0 = rng.seed_view();
    let ghost past0 = rng.drawn();
    proof {
        assert(past0 + ranges_upto(0) =~= past0);
    }
    let mut out: Vec<u64> = Vec::new();
    let mut i: usize = 0;
    while i < n
        invariant
            i <= n,
            out@.len() == i,
            rng.seed_view() == seed0,
            rng.drawn() == past0 + ranges_upto(i as int),
            forall|j: int| 0 <= j < i ==> #[trigger] out@[j] == draw_value(seed0, past0, j),
            forall|j: int| 0 <= j < i ==> range_at(j).0 <= #[trigger] out@[j] < range_at(j).1,
        decreases n - i,
    {
        let (lo, hi) = range_at_exec(i);
        let v = rng.draw_in(lo, hi);
        out.push(v);
        proof {
            assert(ranges_upto(i + 1 as int) =~= ranges_upto(i as int).push(range_at(i as int)));
            assert(past0 + ranges_upto(i + 1 as int) =~= (past0 + ranges_upto(i as int)).push(
                range_at(i as int),
            ));
        }
        i += 1;
    }
    out
}

/// The range of the `i`-th draw, computed.
fn range_at_exec(i: usize) -> (r: (u64, u64))
    ensures
        r == range_at(i as int),
        r.0 < r.1,
{
    if i % DRAWS_PER_CELL == 4 || i % DRAWS_PER_CELL == 6 {
        (PACE_MIN, PACE_MAX)
    } else {
        (0u64, UNIT)
    }
}

/// The one-shot instancing pass. Consumes `7 * cells` draws from the stream
/// in the fixed order and returns the scene `scene_spec` states: two
/// instances per cell, every drawn parameter within its range.
pub fn build_instances(
    cfg: &GridConfig,
    rng: &mut SeededRng,
    button_mesh: u64,
    holder_mesh: u64,
) -> (r: Vec<AnimatedInstance>)
    requires
        cfg.wf(),
    ensures
        r@ == scene_spec(*cfg, old(rng).seed_view(), old(rng).drawn(), button_mesh, holder_mesh),
        r@.len() == 2 * cfg.cells(),
        forall|j: int| 0 <= j < r@.len() ==> (#[trigger] r@[j]).wf(),
        final(rng).seed_view() == old(rng).seed_view(),
{
    proof {
        cfg.lemma_cells_bound();
    }
    let ghost seed0 = rng.seed_view();
    let ghost past0 = rng.drawn();
    let ghost sspec = scene_spec(*cfg, seed0, past0, button_mesh, holder_mesh);
    let cells: usize = (cfg.width as usize) * (cfg.height as usize);
    proof {
        assert(cells == cfg.cells());
    }
    let draws = draw_params(rng, DRAWS_PER_CELL * cells);
    let mut out: Vec<AnimatedInstance> = Vec::new();
    let mut ix: u32 = 0;
    let mut k: usize = 0;
    while ix < cfg.width
        invariant
            cfg.wf(),
            cells == cfg.cells(),
            ix <= cfg.width,
            k == ix * cfg.height,
            k <= cells,
            cells <= 1_000_000,
            draws@.len() == DRAWS_PER_CELL * cells,
            forall|i: int| 0 <= i < draws@.len() ==> #[trigger] draws@[i] == draw_value(
                seed0,
                past0,
                i,
            ),
            forall|i: int| 0 <= i < draws@.len() ==> range_at(i).0 <= #[trigger] draws@[i]
                < range_at(i).1,
            sspec == scene_spec(*cfg, seed0, past0, button_mesh, holder_mesh),
            out@.len() == 2 * k,
            forall|j: int| 0 <= j < out@.len() ==> #[trigger] out@[j] == sspec[j],
            forall|j: int| 0 <= j < out@.len() ==> (#[trigger] out@[j]).wf(),
        decreases cfg.width - ix,
    {
        let mut iz: u32 = 0;
        while iz < cfg.height
            invariant
                cfg.wf(),
                cells == cfg.cells(),
                ix < cfg.width,
                iz <= cfg.height,
                k == ix * cfg.height + iz,
                k <= cells,
                cells <= 1_000_000,
                draws@.len() == DRAWS_PER_CELL * cells,
                forall|i: int| 0 <= i < draws@.len() ==> #[trigger] draws@[i] == draw_value(
                    seed0,
                    past0,
                    i,
                ),
                forall|i: int| 0 <= i < draws@.len() ==> range_at(i).0 <= #[trigger] draws@[i]
                    < range_at(i).1,
                sspec == scene_spec(*cfg, seed0, past0, button_mesh, holder_mesh),
                out@.len() == 2 * k,
                forall|j: int| 0 <= j < out@.len() ==> #[trigger] out@[j] == sspec[j],
                forall|j: int| 0 <= j < out@.len() ==> (#[trigger] out@[j]).wf(),
            decreases cfg.height - iz,
        {
            proof {
                assert(k < cells) by (nonlinear_arith)
                    requires
                        k == ix * cfg.height + iz,
                        ix < cfg.width,
                        iz < cfg.height,
                        cells == cfg.width * cfg.height,
                {}
            }
            let base: usize = DRAWS_PER_CELL * k;
            let x = cfg.cell_x_at(ix);
            let z = cfg.cell_z_at(iz);
            let color_r = draws[base];
            let color_g = draws[base + 1];
            let color_b = draws[base + 2];
            let button = AnimatedInstance {
                kind: InstanceKind::Button,
                mesh: button_mesh,
                x,
                y: 0,
                z,
                color_r,
                color_g,
                color_b,
                time_offset: draws[base + 3],
                pace: draws[base + 4],
                scale: INSTANCE_SCALE,
            };
            let holder = AnimatedInstance {
                kind: InstanceKind::Holder,
                mesh: holder_mesh,
                x,
                y: 0,
                z,
                color_r: crate::instance::darken_at(color_r),
                color_g: crate::instance::darken_at(color_g),
                color_b: crate::instance::darken_at(color_b),
                time_offset: draws[base + 5],
                pace: draws[base + 6],
                scale: INSTANCE_SCALE,
            };
            proof {
                lemma_fundamental_div_mod_converse_div(
                    k as int,
                    cfg.height as int,
                    ix as int,
                    iz as int,
                );
                lemma_fundamental_div_mod_converse_mod(
                    k as int,
                    cfg.height as int,
                    ix as int,
                    iz as int,
                );
                lemma_fundamental_div_mod_converse_div(2 * k as int, 2, k as int, 0);
                lemma_fundamental_div_mod_converse_mod(2 * k as int, 2, k as int, 0);
                lemma_fundamental_div_mod_converse_div(2 * k as int + 1, 2, k as int, 1);
                lemma_fundamental_div_mod_converse_mod(2 * k as int + 1, 2, k as int, 1);
                cfg.lemma_cell_x_bound(ix as int);
                cfg.lemma_cell_z_bound(iz as int);
                lemma_mod_multiples_vanish(k as int, 0, 7);
                lemma_mod_multiples_vanish(k as int, 1, 7);
                lemma_mod_multiples_vanish(k as int, 2, 7);
                lemma_mod_multiples_vanish(k as int, 3, 7);
                lemma_mod_multiples_vanish(k as int, 4, 7);
                lemma_mod_multiples_vanish(k as int, 5, 7);
                lemma_mod_multiples_vanish(k as int, 6, 7);
                assert(button == sspec[2 * k as int]);
                assert(holder == sspec[2 * k as int + 1]);
                assert(button.wf());
                assert(holder.wf());
            }
            out.push(button);
            out.push(holder);
            k += 1;
            iz += 1;
        }
        proof {
            assert((ix + 1) * cfg.height == ix * cfg.height + cfg.height) by (nonlinear_arith)
            {}
        }
        ix += 1;
    }
    proof {
        assert(out@.len() == 2 * cells) by (nonlinear_arith)
            requires
                out@.len() == 2 * (cfg.width * cfg.height),
                cells == cfg.width * cfg.height,
        {}
        assert(out@ =~= sspec);
    }
    out
}

/// Law: the button and the holder spawned for any cell `(ix, iz)` stand at
/// the same lattice position, `x = base_size * ix - offset_x` and
/// `z = base_size * iz - offset_z`, and the holder's color is the fixed
/// darkening of the button's.
pub proof fn lemma_paired_cell(
    cfg: GridConfig,
    seed: Seq<u8>,
    past0: Seq<(u64, u64)>,
    button_mesh: u64,
    holder_mesh: u64,
    ix: int,
    iz: int,
)
    requires
        cfg.wf(),
        0 <= ix < cfg.width,
        0 <= iz < cfg.height,
    ensures
        ({
            let s = scene_spec(cfg, seed, past0, button_mesh, holder_mesh);
            let k = ix * (cfg.height as int) + iz;
            &&& 0 <= 2 * k + 1 < s.len()
            &&& s[2 * k].kind == InstanceKind::Button
            &&& s[2 * k + 1].kind == InstanceKind::Holder
            &&& s[2 * k].mesh == button_mesh
            &&& s[2 * k + 1].mesh == holder_mesh
            &&& s[2 * k].x == s[2 * k + 1].x
            &&& s[2 * k].z == s[2 * k + 1].z
            &&& s[2 * k].x as int == cfg.cell_x(ix)
            &&& s[2 * k].z as int == cfg.cell_z(iz)
            &&& s[2 * k + 1].color_r == darken(s[2 * k].color_r)
            &&& s[2 * k + 1].color_g == darken(s[2 * k].color_g)
            &&& s[2 * k + 1].color_b == darken(s[2 * k].color_b)
        }),
{
    let k = ix * (cfg.height as int) + iz;
    cfg.lemma_cells_bound();
    assert(0 <= k < cfg.cells()) by (nonlinear_arith)
        requires
            k == ix * (cfg.height as int) + iz,
            0 <= ix < cfg.width,
            0 <= iz < cfg.height,
    {}
    lemma_fundamental_div_mod_converse_div(k, cfg.height as int, ix, iz);
    lemma_fundamental_div_mod_converse_mod(k, cfg.height as int, ix, iz);
    lemma_fundamental_div_mod_converse_div(2 * k, 2, k, 0);
    lemma_fundamental_div_mod_converse_mod(2 * k, 2, k, 0);
    lemma_fundamental_div_mod_converse_div(2 * k + 1, 2, k, 1);
    lemma_fundamental_div_mod_converse_mod(2 * k + 1, 2, k, 1);
    cfg.lemma_cell_x_bound(ix);
    cfg.lemma_cell_z_bound(iz);
}

/// Law: instancing is deterministic. Two runs over the same grid with equal
/// seeds and equal prior draw histories spawn identical scenes, instance for
/// instance, colors, time offsets and paces included.
pub proof fn lemma_instancing_deterministic(
    cfg: GridConfig,
    seed_a: Seq<u8>,
    seed_b: Seq<u8>,
    past_a: Seq<(u64, u64)>,
    past_b: Seq<(u64, u64)>,
    button_mesh: u64,
    holder_mesh: u64,
)
    requires
        seed_a == seed_b,
        past_a == past_b,
    ensures
        scene_spec(cfg, seed_a, past_a, button_mesh, holder_mesh) == scene_spec(
            cfg,
            seed_b,
            past_b,
            button_mesh,
            holder_mesh,
        ),
{
}

} // verus!
