//! The frame protocol: the load gate, the one-shot instancing pass, the
//! per-frame systems, and the fatal missing-mesh error.

use oscgrid::assets::{GltfAssets, SceneError};
use oscgrid::gate::{advance, AssetLoadingState};
use oscgrid::oscillator::{button_y_at, holder_y_at, wave_at};
use oscgrid::grid::GridConfig;
use oscgrid::instance::InstanceKind;
use oscgrid::scene::Scene;

fn test_config() -> GridConfig {
    GridConfig {
        width: 3,
        height: 3,
        base_size: 1_200_000,
        offset_x: 8_000_000,
        offset_z: 10_000_000,
    }
}

fn two_meshes() -> GltfAssets {
    GltfAssets::new(vec![100, 200])
}

#[test]
fn gate_starts_loading_and_opens_once_ready() {
    assert_eq!(AssetLoadingState::default(), AssetLoadingState::Loading);
    assert_eq!(
        advance(AssetLoadingState::Loading, false),
        AssetLoadingState::Loading
    );
    assert_eq!(
        advance(AssetLoadingState::Loading, true),
        AssetLoadingState::Loaded
    );
    assert_eq!(
        advance(AssetLoadingState::Loaded, false),
        AssetLoadingState::Loaded
    );
    assert_eq!(
        advance(AssetLoadingState::Loaded, true),
        AssetLoadingState::Loaded
    );
}

#[test]
fn nothing_spawns_while_the_loader_is_not_ready() {
    let mut scene = Scene::new(test_config(), [0; 32]);
    let assets = two_meshes();
    for _ in 0..5 {
        let report = scene.step(&assets, false, 16_666).unwrap();
        assert!(!report.indicator_cleared);
        assert_eq!(report.spawned, 0);
        assert_eq!(scene.state, AssetLoadingState::Loading);
        assert_eq!(scene.instances.len(), 0);
        assert!(scene.camera.is_none());
    }
}

#[test]
fn the_opening_edge_clears_the_indicator_and_spawns_the_grid() {
    let mut scene = Scene::new(test_config(), [0; 32]);
    let assets = two_meshes();
    let report = scene.step(&assets, true, 0).unwrap();
    assert!(report.indicator_cleared);
    assert_eq!(report.spawned, 18);
    assert_eq!(scene.state, AssetLoadingState::Loaded);
    assert_eq!(scene.instances.len(), 18);
    assert!(scene.camera.is_some());
}

#[test]
fn the_instancer_never_runs_twice() {
    let mut scene = Scene::new(test_config(), [0; 32]);
    let assets = two_meshes();
    scene.step(&assets, true, 0).unwrap();
    let spawned: Vec<(u64, u64, i64, i64)> = scene
        .instances
        .iter()
        .map(|i| (i.time_offset, i.pace, i.x, i.z))
        .collect();
    for frame in 1..10u64 {
        let report = scene.step(&assets, true, frame * 16_666).unwrap();
        assert!(!report.indicator_cleared);
        assert_eq!(report.spawned, 0);
        assert_eq!(scene.state, AssetLoadingState::Loaded);
        let now: Vec<(u64, u64, i64, i64)> = scene
            .instances
            .iter()
            .map(|i| (i.time_offset, i.pace, i.x, i.z))
            .collect();
        assert_eq!(spawned, now);
    }
}

#[test]
fn at_elapsed_zero_every_height_comes_from_the_time_offset_alone() {
    let mut scene = Scene::new(test_config(), [0; 32]);
    let assets = two_meshes();
    scene.step(&assets, true, 0).unwrap();
    for inst in scene.instances.iter() {
        // at zero elapsed the phase is the time offset exactly
        let v = wave_at(inst.time_offset);
        match inst.kind {
            InstanceKind::Button => {
                assert_eq!(inst.y, ((v * 1_300_000) / 1_000_000) as i64 - 1_700_000);
                assert_eq!(inst.y, button_y_at(inst.pace, inst.time_offset, 0));
            }
            InstanceKind::Holder => {
                assert_eq!(inst.y, ((v * 300_000) / 1_000_000) as i64);
                assert_eq!(inst.y, holder_y_at(inst.pace, inst.time_offset, 0));
            }
        }
    }
    assert_eq!(scene.camera.unwrap().y, 10_000_000);
}

#[test]
fn heights_track_the_oscillators_every_frame() {
    let mut scene = Scene::new(test_config(), [11; 32]);
    let assets = two_meshes();
    scene.step(&assets, true, 0).unwrap();
    let elapsed: u64 = 7_654_321;
    scene.step(&assets, true, elapsed).unwrap();
    for inst in scene.instances.iter() {
        let expected = match inst.kind {
            InstanceKind::Button => button_y_at(inst.pace, inst.time_offset, elapsed),
            InstanceKind::Holder => holder_y_at(inst.pace, inst.time_offset, elapsed),
        };
        assert_eq!(inst.y, expected);
        match inst.kind {
            InstanceKind::Button => assert!(-1_700_000 <= inst.y && inst.y <= -400_000),
            InstanceKind::Holder => assert!(0 <= inst.y && inst.y <= 300_000),
        }
    }
}

#[test]
fn camera_follows_its_orbit_after_loading() {
    let mut scene = Scene::new(test_config(), [0; 32]);
    let assets = two_meshes();
    scene.step(&assets, true, 0).unwrap();
    scene.step(&assets, true, 5_000_000).unwrap();
    assert_eq!(scene.camera.unwrap().y, 11_000_000);
    scene.step(&assets, true, 15_000_000).unwrap();
    assert_eq!(scene.camera.unwrap().y, 9_000_000);
    let cam = scene.camera.unwrap();
    assert_eq!(cam.x, -7_000_000);
    assert_eq!(cam.z, 7_000_000);
    assert_eq!(cam.target_x, 0);
    assert_eq!(cam.target_y, 1_000_000);
    assert_eq!(cam.target_z, 0);
}

#[test]
fn an_empty_bundle_is_fatal_and_spawns_nothing() {
    let mut scene = Scene::new(test_config(), [0; 32]);
    let assets = GltfAssets::new(vec![]);
    let err = scene.step(&assets, true, 0).unwrap_err();
    assert_eq!(err, SceneError::MissingMesh { index: 0 });
    assert_eq!(scene.state, AssetLoadingState::Loading);
    assert_eq!(scene.instances.len(), 0);
    assert!(scene.camera.is_none());
}

#[test]
fn a_bundle_with_one_mesh_is_fatal_naming_the_second_entry() {
    let mut scene = Scene::new(test_config(), [0; 32]);
    let assets = GltfAssets::new(vec![100]);
    let err = scene.step(&assets, true, 0).unwrap_err();
    assert_eq!(err, SceneError::MissingMesh { index: 1 });
    assert_eq!(scene.state, AssetLoadingState::Loading);
    assert_eq!(scene.instances.len(), 0);
}

#[test]
fn mesh_lookup_is_ok_exactly_for_present_entries() {
    let assets = two_meshes();
    assert_eq!(assets.mesh(0), Ok(100));
    assert_eq!(assets.mesh(1), Ok(200));
    assert_eq!(assets.mesh(2), Err(SceneError::MissingMesh { index: 2 }));
}

#[test]
fn two_scenes_with_one_seed_load_identically() {
    let assets = two_meshes();
    let mut scene_a = Scene::new(test_config(), [23; 32]);
    let mut scene_b = Scene::new(test_config(), [23; 32]);
    scene_a.step(&assets, true, 1_000).unwrap();
    scene_b.step(&assets, true, 1_000).unwrap();
    assert_eq!(scene_a.instances.len(), scene_b.instances.len());
    for (x, y) in scene_a.instances.iter().zip(scene_b.instances.iter()) {
        assert_eq!(x, y);
    }
}
