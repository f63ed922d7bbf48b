//! The scene itself and its frame loop: the load gate, the one-shot
//! instancing pass it releases, and the per-frame oscillator and camera-orbit
//! systems.
//!
//! `step` is the whole per-frame protocol. While the load state is `Loading`
//! nothing exists; on the one frame where the loader turns ready the loading
//! indicator is cleared, the instancer runs exactly once from a fresh stream
//! on the stored seed, the camera is spawned, and the per-frame systems run;
//! on every later frame only the per-frame systems run. Once `Loaded`, the
//! scene never goes back and the spawned set is never rebuilt.

use vstd::prelude::*;

use crate::assets::{GltfAssets, SceneError};
use crate::camera::{camera_y_at, CameraState};
use crate::gate::{next_state, AssetLoadingState};
use crate::grid::GridConfig;
use crate::instance::{same_base, AnimatedInstance};
use crate::instancer::{build_instances, scene_spec};
use crate::rng::SeededRng;

verus! {

use vstd::pervasive::VecAdditionalExecFns;

/// What one frame asked of the host: on the loading-to-loaded edge the
/// loading indicator must be removed, and the report says how many instances
/// were spawned on that same frame (zero on every other frame).
#[derive(Clone, Copy, PartialEq, Eq, Structural, Debug)]
pub struct StepReport {
    /// True exactly on the loading-to-loaded edge.
    pub indicator_cleared: bool,
    /// Instances spawned this frame: two per cell on the edge, else zero.
    pub spawned: usize,
}

/// The whole scene: configuration and seed fixed at start, the load state,
/// and the spawned instances and camera once loading has finished.
pub struct Scene {
    /// Grid configuration, fixed at start.
    pub config: GridConfig,
    /// Seed of the instancer's random stream, fixed at start.
    pub seed: [u8; 32],
    /// The load gate's state.
    pub state: AssetLoadingState,
    /// The spawned instances; empty until loading finishes.
    pub instances: Vec<AnimatedInstance>,
    /// The camera; spawned on the same frame as the instances.
    pub camera: Option<CameraState>,
}

impl Scene {
    /// While loading nothing is spawned; once loaded, exactly two instances
    /// per cell exist, all well-formed with heights in their bands, and the
    /// camera exists at its station.
    pub open spec fn wf(self) -> bool {
        &&& self.config.wf()
        &&& match self.state {
            AssetLoadingState::Loading => {
                &&& self.instances@.len() == 0
                &&& self.camera is None
            },
            AssetLoadingState::Loaded => {
                &&& self.instances@.len() == 2 * self.config.cells()
                &&& forall|j: int|
                    0 <= j < self.instances@.len() ==> (#[trigger] self.instances@[j]).wf()
                &&& forall|j: int|
                    0 <= j < self.instances@.len() ==> (#[trigger] self.instances@[j]).y_in_band()
                &&& self.camera matches Some(cam) && cam.wf()
            },
        }
    }

    /// A fresh scene: still loading, nothing spawned.
    pub fn new(config: GridConfig, seed: [u8; 32]) -> (r: Scene)
        requires
            config.wf(),
        ensures
            r.wf(),
            r.config == config,
            r.seed == seed,
            r.state == AssetLoadingState::Loading,
            r.instances@.len() == 0,
            r.camera is None,
    {
        Scene {
            config,
            seed,
            state: AssetLoadingState::Loading,
            instances: Vec::new(),
            camera: None,
        }
    }

    /// The per-frame systems: every instance's oscillator and the camera's
    /// orbit, all from the same elapsed time.
    fn run_frame(&mut self, elapsed_us: u64)
        requires
            forall|j: int|
                0 <= j < old(self).instances@.len() ==> (#[trigger] old(self).instances@[j]).wf(),
            old(self).camera is Some ==> old(self).camera->0.wf(),
        ensures
            final(self).config == old(self).config,
            final(self).seed == old(self).seed,
            final(self).state == old(self).state,
            final(self).instances@.len() == old(self).instances@.len(),
            forall|j: int|
                0 <= j < final(self).instances@.len() ==> same_base(
                    #[trigger] final(self).instances@[j],
                    old(self).instances@[j],
                ),
            forall|j: int|
                0 <= j < final(self).instances@.len() ==> (#[trigger] final(self).instances@[j]).wf(),
            forall|j: int|
                0 <= j < final(self).instances@.len() ==> (
                #[trigger] final(self).instances@[j]).y_in_band(),
            forall|j: int|
                0 <= j < final(self).instances@.len() ==> (#[trigger] final(self).instances@[j]).y
                    as int == old(self).instances@[j].y_spec(elapsed_us),
            old(self).camera is None ==> final(self).camera == old(self).camera,
            old(self).camera is Some ==> {
                &&& final(self).camera is Some
                &&& final(self).camera->0.wf()
                &&& final(self).camera->0.y as int == camera_y_at(elapsed_us as int)
                &&& final(self).camera->0.x == old(self).camera->0.x
                &&& final(self).camera->0.z == old(self).camera->0.z
                &&& final(self).camera->0.target_x == old(self).camera->0.target_x
                &&& final(self).camera->0.target_y == old(self).camera->0.target_y
                &&& final(self).camera->0.target_z == old(self).camera->0.target_z
            },
    {
        let n = self.instances.len();
        let mut j: usize = 0;
        while j < n
            invariant
                j <= n,
                n == self.instances@.len(),
                n == old(self).instances@.len(),
                self.config == old(self).config,
                self.seed == old(self).seed,
                self.state == old(self).state,
                self.camera == old(self).camera,
                forall|i: int|
                    0 <= i < old(self).instances@.len() ==> (
                    #[trigger] old(self).instances@[i]).wf(),
                forall|i: int|
                    j <= i < n ==> #[trigger] self.instances@[i] == old(self).instances@[i],
                forall|i: int|
                    0 <= i < j ==> same_base(
                        #[trigger] self.instances@[i],
                        old(self).instances@[i],
                    ),
                forall|i: int| 0 <= i < j ==> (#[trigger] self.instances@[i]).wf(),
                forall|i: int| 0 <= i < j ==> (#[trigger] self.instances@[i]).y_in_band(),
                forall|i: int|
                    0 <= i < j ==> (#[trigger] self.instances@[i]).y as int == old(
                        self,
                    ).instances@[i].y_spec(elapsed_us),
            decreases n - j,
        {
            let mut inst = self.instances[j];
            proof {
                assert(inst == old(self).instances@[j as int]);
                assert(old(self).instances@[j as int].wf());
            }
            inst.update(elapsed_us);
            self.instances.set(j, inst);
            j += 1;
        }
        match &mut self.camera {
            Some(cam) => cam.orbit(elapsed_us),
            None => {},
        }
    }

    /// One frame of the whole protocol, given what the external loader
    /// reports and the elapsed time.
    ///
    /// The load state advances by its transition relation and, once `Loaded`,
    /// never leaves it. On the opening edge the loading indicator is
    /// reported cleared and the instancer runs, exactly once, from a fresh
    /// stream on the stored seed — so the spawned scene is the function
    /// `scene_spec` of configuration, seed and mesh handles alone. On every
    /// frame that ends `Loaded`, every instance's height is exactly its
    /// oscillator's at `elapsed_us` and the camera's height is exactly its
    /// orbit's. A bundle without the two required meshes is fatal: the error
    /// names the missing index and the scene is left untouched, unbuilt.
    pub fn step(&mut self, assets: &GltfAssets, loader_ready: bool, elapsed_us: u64) -> (r: Result<
        StepReport,
        SceneError,
    >)
        requires
            old(self).wf(),
        ensures
            final(self).config == old(self).config,
            final(self).seed == old(self).seed,
            match r {
                Ok(rep) => {
                    &&& final(self).wf()
                    &&& final(self).state == next_state(old(self).state, loader_ready)
                    &&& rep.indicator_cleared == (old(self).state == AssetLoadingState::Loading
                        && loader_ready)
                    &&& (old(self).state == AssetLoadingState::Loaded ==> {
                        &&& final(self).instances@.len() == old(self).instances@.len()
                        &&& rep.spawned == 0
                        &&& forall|j: int|
                            0 <= j < final(self).instances@.len() ==> same_base(
                                #[trigger] final(self).instances@[j],
                                old(self).instances@[j],
                            )
                    })
                    &&& (old(self).state == AssetLoadingState::Loading && !loader_ready ==> {
                        &&& final(self).instances@ == old(self).instances@
                        &&& final(self).camera == old(self).camera
                        &&& rep.spawned == 0
                    })
                    &&& (rep.indicator_cleared ==> {
                        &&& assets.meshes@.len() >= 2
                        &&& rep.spawned == final(self).instances@.len()
                        &&& rep.spawned == 2 * old(self).config.cells()
                        &&& forall|j: int|
                            0 <= j < final(self).instances@.len() ==> same_base(
                                #[trigger] final(self).instances@[j],
                                scene_spec(
                                    old(self).config,
                                    old(self).seed@,
                                    Seq::<(u64, u64)>::empty(),
                                    assets.meshes@[0],
                                    assets.meshes@[1],
                                )[j],
                            )
                    })
                    &&& (final(self).state == AssetLoadingState::Loaded ==> {
                        &&& forall|j: int|
                            0 <= j < final(self).instances@.len() ==> (
                            #[trigger] final(self).instances@[j]).y as int
                                == final(self).instances@[j].y_spec(elapsed_us)
                        &&& final(self).camera matches Some(cam) && cam.y as int == camera_y_at(
                            elapsed_us as int,
                        )
                    })
                },
                Err(e) => {
                    &&& old(self).state == AssetLoadingState::Loading
                    &&& loader_ready
                    &&& assets.meshes@.len() < 2
                    &&& e == (SceneError::MissingMesh { index: assets.meshes@.len() as usize })
                    &&& final(self).state == old(self).state
                    &&& final(self).instances@ == old(self).instances@
                    &&& final(self).camera == old(self).camera
                },
            },
    {
        match self.state {
            AssetLoadingState::Loading => {
                if loader_ready {
                    let button_mesh = match assets.mesh(0) {
                        Ok(m) => m,
                        Err(e) => {
                            return Err(e);
                        },
                    };
                    let holder_mesh = match assets.mesh(1) {
                        Ok(m) => m,
                        Err(e) => {
                            return Err(e);
                        },
                    };
                    let mut rng = SeededRng::from_seed(self.seed);
                    let built = build_instances(&self.config, &mut rng, button_mesh, holder_mesh);
                    let spawned = built.len();
                    self.instances = built;
                    self.camera = Some(CameraState::spawn());
                    self.state = AssetLoadingState::Loaded;
                    self.run_frame(elapsed_us);
                    Ok(StepReport { indicator_cleared: true, spawned })
                } else {
                    Ok(StepReport { indicator_cleared: false, spawned: 0 })
                }
            },
            AssetLoadingState::Loaded => {
                self.run_frame(elapsed_us);
                Ok(StepReport { indicator_cleared: false, spawned: 0 })
            },
        }
    }
}

} // verus!
