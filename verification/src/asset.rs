//! Handles, the pair of pending assets, and the asset events of the host.

use vstd::prelude::*;

verus! {

/// Identifies one asset container of the host's asset system.
#[derive(Clone, Copy, Debug, PartialEq, Eq, Structural, Hash)]
pub struct AssetHandle {
    pub id: u64,
}

/// Identifies one animation clip of the host's asset system.
#[derive(Clone, Copy, Debug, PartialEq, Eq, Structural, Hash)]
pub struct ClipHandle {
    pub id: u64,
}

/// The two containers whose loading the application waits for.
#[derive(Clone, Copy, Debug, PartialEq, Eq, Structural)]
pub struct PendingAssets {
    /// The container that holds the animation clips.
    pub animation: AssetHandle,
    /// The container that holds the rigged model.
    pub model: AssetHandle,
}

/// What the host's asset system reports about one asset container.
#[derive(Clone, Copy, Debug, PartialEq, Eq, Structural)]
pub enum AssetEvent {
    /// The asset was added to the store.
    Added { id: AssetHandle },
    /// The asset's value was modified.
    Modified { id: AssetHandle },
    /// The asset was removed from the store.
    Removed { id: AssetHandle },
    /// The asset and all of its dependencies have finished loading.
    LoadedWithDependencies { id: AssetHandle },
}

impl AssetHandle {
    pub fn new(id: u64) -> (handle: Self)
        ensures
            handle.id == id,
    {
        AssetHandle { id }
    }
}

impl ClipHandle {
    pub fn new(id: u64) -> (handle: Self)
        ensures
            handle.id == id,
    {
        ClipHandle { id }
    }
}

impl PendingAssets {
    pub fn new(animation: AssetHandle, model: AssetHandle) -> (pending: Self)
        ensures
            pending.animation == animation,
            pending.model == model,
    {
        PendingAssets { animation, model }
    }
}

impl AssetEvent {
    /// Whether this event reports that `asset` is fully loaded.
    pub open spec fn reports_loaded(self, asset: AssetHandle) -> bool {
        self == (AssetEvent::LoadedWithDependencies { id: asset })
    }

    /// True exactly for a `LoadedWithDependencies` event about `asset`.
    pub fn is_loaded_with_dependencies(&self, asset: AssetHandle) -> (loaded: bool)
        ensures
            loaded == self.reports_loaded(asset),
    {
        match self {
            AssetEvent::LoadedWithDependencies { id } => id.id == asset.id,
            _ => false,
        }
    }
}

/// Whether some event of the batch reports that `asset` is fully loaded.
pub open spec fn batch_reports_loaded(events: Seq<AssetEvent>, asset: AssetHandle) -> bool {
    exists|i: int| 0 <= i < events.len() && (#[trigger] events[i]).reports_loaded(asset)
}

/// Scans a batch of events for a report that `asset` is fully loaded.
pub fn any_loaded_with_dependencies(events: &Vec<AssetEvent>, asset: AssetHandle) -> (found: bool)
    ensures
        found == batch_reports_loaded(events@, asset),
{
    let mut i: usize = 0;
    while i < events.len()
        invariant
            i <= events.len(),
            forall|j: int| 0 <= j < i ==> !(#[trigger] events@[j]).reports_loaded(asset),
        decreases events.len() - i,
    {
        if events[i].is_loaded_with_dependencies(asset) {
            return true;
        }
        i = i + 1;
    }
    false
}

} // verus!
