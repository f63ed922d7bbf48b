//! The asset-load gate: a two-state machine that blocks scene construction
//! until the external loader reports the bundle resident, and never reverts.

use vstd::prelude::*;

verus! {

/// Loading progress of the tracked asset bundle. It starts at
/// `Loading` and moves to `Loaded` exactly once, forward only.
#[derive(Clone, Copy, PartialEq, Eq, Structural, Debug, Hash)]
pub enum AssetLoadingState {
    Loading,
    Loaded,
}

impl Default for AssetLoadingState {
    /// A fresh gate is still loading.
    fn default() -> (r: Self)
        ensures
            r == AssetLoadingState::Loading,
    {
        AssetLoadingState::Loading
    }
}

/// The load gate's transition relation: `Loading` moves to `Loaded` when the
/// loader reports readiness, and `Loaded` is terminal.
pub open spec fn next_state(s: AssetLoadingState, loader_ready: bool) -> AssetLoadingState {
    match s {
        AssetLoadingState::Loading => if loader_ready {
            AssetLoadingState::Loaded
        } else {
            AssetLoadingState::Loading
        },
        AssetLoadingState::Loaded => AssetLoadingState::Loaded,
    }
}

/// Advances the load state by one observation of the loader.
pub fn advance(s: AssetLoadingState, loader_ready: bool) -> (r: AssetLoadingState)
    ensures
        r == next_state(s, loader_ready),
{
    match s {
        AssetLoadingState::Loading => {
            if loader_ready {
                AssetLoadingState::Loaded
            } else {
                AssetLoadingState::Loading
            }
        },
        AssetLoadingState::Loaded => AssetLoadingState::Loaded,
    }
}

/// Once the load state has entered `Loaded` it never transitions away, whatever
/// the loader reports afterwards.
pub proof fn lemma_loaded_is_terminal(loader_ready: bool)
    ensures
        next_state(AssetLoadingState::Loaded, loader_ready) == AssetLoadingState::Loaded,
{
}

} // verus!
