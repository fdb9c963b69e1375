//! The failures that end a run.

use crate::asset::AssetHandle;
use vstd::prelude::*;

verus! {

/// Why a step of the lifecycle could not be carried out. The context is left
/// as it was before the step that failed.
#[derive(Clone, Copy, Debug, PartialEq, Eq, Structural)]
pub enum LifecycleError {
    /// A container was reported as loaded, or has to be written to, but the
    /// asset store does not hold it.
    AssetMissing { asset: AssetHandle },
    /// The animation container is loaded but holds no clip.
    EmptyClipList { asset: AssetHandle },
    /// A player appeared before any animation was published.
    NoActiveAnimation,
}

} // verus!
