//! The loaded asset bundle, seen as its table of resolved mesh handles, and
//! the one fatal error of scene construction: a required mesh entry missing.

use vstd::prelude::*;

verus! {

/// Why scene construction aborted. There is no retry or partial-scene path:
/// a missing mesh entry is fatal and names the index that was absent.
#[derive(Clone, Copy, PartialEq, Eq, Structural, Debug)]
pub enum SceneError {
    /// The bundle has no mesh entry at `index`.
    MissingMesh { index: usize },
}

/// The resolved contents of the loaded bundle: one opaque mesh handle per
/// mesh entry, in the bundle's order. Entry 0 is the button primitive and
/// entry 1 the holder primitive. The decoding of the bundle file into these
/// handles is the external loader's work and stays outside this library.
pub struct GltfAssets {
    /// Mesh handle per bundle entry.
    pub meshes: Vec<u64>,
}

impl GltfAssets {
    /// Wraps a resolved mesh table.
    pub fn new(meshes: Vec<u64>) -> (r: GltfAssets)
        ensures
            r.meshes@ == meshes@,
    {
        GltfAssets { meshes }
    }

    /// The mesh handle at `index`, or the fatal error naming the absent
    /// index: `Ok` exactly when the bundle has that entry.
    pub fn mesh(&self, index: usize) -> (r: Result<u64, SceneError>)
        ensures
            index < self.meshes@.len() ==> r == Ok::<u64, SceneError>(self.meshes@[index as int]),
            index >= self.meshes@.len() ==> r == Err::<u64, SceneError>(
                SceneError::MissingMesh { index },
            ),
    {
        if index < self.meshes.len() {
            Ok(self.meshes[index])
        } else {
            Err(SceneError::MissingMesh { index })
        }
    }
}

} // verus!
