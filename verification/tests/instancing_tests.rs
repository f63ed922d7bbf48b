//! The instancer against the grid rules and against rand itself.

use oscgrid::grid::GridConfig;
use oscgrid::instance::InstanceKind;
use oscgrid::instancer::{build_instances, draw_params};
use oscgrid::rng::SeededRng;

use rand::Rng;
use rand::SeedableRng;

fn test_config(width: u32, height: u32) -> GridConfig {
    GridConfig {
        width,
        height,
        base_size: 1_200_000,
        offset_x: 8_000_000,
        offset_z: 10_000_000,
    }
}

#[test]
fn instancing_is_deterministic_per_seed() {
    let cfg = test_config(4, 3);
    let seed: [u8; 32] = [7; 32];
    let mut rng_a = SeededRng::from_seed(seed);
    let mut rng_b = SeededRng::from_seed(seed);
    let a = build_instances(&cfg, &mut rng_a, 10, 11);
    let b = build_instances(&cfg, &mut rng_b, 10, 11);
    assert_eq!(a.len(), b.len());
    for (x, y) in a.iter().zip(b.iter()) {
        assert_eq!(x, y);
    }
}

#[test]
fn different_seeds_give_different_scenes() {
    let cfg = test_config(2, 2);
    let mut rng_a = SeededRng::from_seed([0; 32]);
    let mut rng_b = SeededRng::from_seed([1; 32]);
    let a = build_instances(&cfg, &mut rng_a, 10, 11);
    let b = build_instances(&cfg, &mut rng_b, 10, 11);
    let mut any_differs = false;
    for (x, y) in a.iter().zip(b.iter()) {
        if x != y {
            any_differs = true;
        }
    }
    assert!(any_differs);
}

#[test]
fn single_cell_scene_matches_rand_drawn_directly() {
    // One cell, the all-zero seed: the two instances sit at (-8, 0, -10) and
    // carry exactly the first seven uniform draws of StdRng from that seed.
    let cfg = test_config(1, 1);
    let mut rng = SeededRng::from_seed([0; 32]);
    let scene = build_instances(&cfg, &mut rng, 100, 200);
    assert_eq!(scene.len(), 2);

    let mut reference = rand::rngs::StdRng::from_seed([0; 32]);
    let r: u64 = reference.random_range(0..1_000_000u64);
    let g: u64 = reference.random_range(0..1_000_000u64);
    let b: u64 = reference.random_range(0..1_000_000u64);
    let button_offset: u64 = reference.random_range(0..1_000_000u64);
    let button_pace: u64 = reference.random_range(500_000..2_000_000u64);
    let holder_offset: u64 = reference.random_range(0..1_000_000u64);
    let holder_pace: u64 = reference.random_range(500_000..2_000_000u64);

    let button = &scene[0];
    assert_eq!(button.kind, InstanceKind::Button);
    assert_eq!(button.mesh, 100);
    assert_eq!(button.x, -8_000_000);
    assert_eq!(button.y, 0);
    assert_eq!(button.z, -10_000_000);
    assert_eq!(button.color_r, r);
    assert_eq!(button.color_g, g);
    assert_eq!(button.color_b, b);
    assert_eq!(button.time_offset, button_offset);
    assert_eq!(button.pace, button_pace);
    assert_eq!(button.scale, 100_000);

    let holder = &scene[1];
    assert_eq!(holder.kind, InstanceKind::Holder);
    assert_eq!(holder.mesh, 200);
    assert_eq!(holder.x, -8_000_000);
    assert_eq!(holder.y, 0);
    assert_eq!(holder.z, -10_000_000);
    assert_eq!(holder.color_r, (r * 7) / 10);
    assert_eq!(holder.color_g, (g * 7) / 10);
    assert_eq!(holder.color_b, (b * 7) / 10);
    assert_eq!(holder.time_offset, holder_offset);
    assert_eq!(holder.pace, holder_pace);
    assert_eq!(holder.scale, 100_000);
}

#[test]
fn paired_instances_share_their_cell_position() {
    let cfg = test_config(3, 2);
    let mut rng = SeededRng::from_seed([42; 32]);
    let scene = build_instances(&cfg, &mut rng, 1, 2);
    assert_eq!(scene.len(), 12);
    for ix in 0..3u32 {
        for iz in 0..2u32 {
            let k = (ix * 2 + iz) as usize;
            let button = &scene[2 * k];
            let holder = &scene[2 * k + 1];
            assert_eq!(button.kind, InstanceKind::Button);
            assert_eq!(holder.kind, InstanceKind::Holder);
            let x = 1_200_000 * (ix as i64) - 8_000_000;
            let z = 1_200_000 * (iz as i64) - 10_000_000;
            assert_eq!(button.x, x);
            assert_eq!(holder.x, x);
            assert_eq!(button.z, z);
            assert_eq!(holder.z, z);
            assert_eq!(holder.color_r, (button.color_r * 7) / 10);
            assert_eq!(holder.color_g, (button.color_g * 7) / 10);
            assert_eq!(holder.color_b, (button.color_b * 7) / 10);
        }
    }
}

#[test]
fn drawn_parameters_stay_in_their_ranges() {
    let cfg = test_config(5, 4);
    let mut rng = SeededRng::from_seed([9; 32]);
    let scene = build_instances(&cfg, &mut rng, 1, 2);
    assert_eq!(scene.len(), 40);
    for inst in scene.iter() {
        assert!(inst.color_r < 1_000_000);
        assert!(inst.color_g < 1_000_000);
        assert!(inst.color_b < 1_000_000);
        assert!(inst.time_offset < 1_000_000);
        assert!(500_000 <= inst.pace && inst.pace < 2_000_000);
    }
}

#[test]
fn draw_params_replays_rand_exactly() {
    let mut rng = SeededRng::from_seed([3; 32]);
    let drawn = draw_params(&mut rng, 14);
    let mut reference = rand::rngs::StdRng::from_seed([3; 32]);
    for (i, &v) in drawn.iter().enumerate() {
        let expected: u64 = if i % 7 == 4 || i % 7 == 6 {
            reference.random_range(500_000..2_000_000u64)
        } else {
            reference.random_range(0..1_000_000u64)
        };
        assert_eq!(v, expected);
    }
}

#[test]
fn draw_params_yields_varied_values() {
    let mut rng = SeededRng::from_seed([5; 32]);
    let drawn = draw_params(&mut rng, 70);
    let first = drawn[0];
    let mut any_differs = false;
    for &v in drawn.iter() {
        if v != first {
            any_differs = true;
        }
    }
    assert!(any_differs);
}
