//! The loaded asset containers, as far as the lifecycle reads and writes
//! them: for each loaded container, the list of its animation clips.

use crate::asset::{AssetHandle, ClipHandle};
use std::collections::HashMap;
use vstd::prelude::*;

verus! {

broadcast use vstd::std_specs::hash::group_hash_axioms;

/// The animation-clip lists of the loaded asset containers, by handle.
pub struct AssetStore {
    clips: HashMap<u64, Vec<ClipHandle>>,
}

impl View for AssetStore {
    type V = Map<AssetHandle, Seq<ClipHandle>>;

    closed spec fn view(&self) -> Map<AssetHandle, Seq<ClipHandle>> {
        Map::new(
            |asset: AssetHandle| self.clips@.contains_key(asset.id),
            |asset: AssetHandle| self.clips@[asset.id]@,
        )
    }
}

impl AssetStore {
    /// A store in which no container is loaded.
    pub fn new() -> (store: Self)
        ensures
            store@ == Map::<AssetHandle, Seq<ClipHandle>>::empty(),
    {
        let store = AssetStore { clips: HashMap::new() };
        assert(store@ =~= Map::<AssetHandle, Seq<ClipHandle>>::empty());
        store
    }

    /// Whether the container behind `asset` is loaded.
    pub fn contains(&self, asset: AssetHandle) -> (present: bool)
        ensures
            present == self@.contains_key(asset),
    {
        self.clips.contains_key(&asset.id)
    }

    /// The clip list of the container behind `asset`, if it is loaded.
    pub fn animations(&self, asset: AssetHandle) -> (clips: Option<&Vec<ClipHandle>>)
        ensures
            match clips {
                Some(list) => self@.contains_key(asset) && list@ == self@[asset],
                None => !self@.contains_key(asset),
            },
    {
        self.clips.get(&asset.id)
    }

    /// Loads the container behind `asset` with the given clip list, or
    /// replaces the clip list of a container that is already loaded.
    pub fn insert(&mut self, asset: AssetHandle, animations: Vec<ClipHandle>)
        ensures
            final(self)@ == old(self)@.insert(asset, animations@),
    {
        let ghost list = animations@;
        self.clips.insert(asset.id, animations);
        assert(self@ =~= old(self)@.insert(asset, list)) by {
            assert forall|other: AssetHandle| #[trigger]
                self@.contains_key(other) == old(self)@.insert(asset, list).contains_key(
                    other,
                ) by {
                assert(other == asset <==> other.id == asset.id);
            }
            assert forall|other: AssetHandle| #[trigger] self@.contains_key(other) implies self@[other]
                == old(self)@.insert(asset, list)[other] by {
                assert(other == asset <==> other.id == asset.id);
            }
        }
    }
}

} // verus!
