//! What a resource bound to a screen's lifetime is made of: the identity of a
//! live instance, the durable handle of an asset, and the request that creates
//! an instance from one.

use vstd::prelude::*;

verus! {

/// The identity of something that lives in the scene. It is a lookup key and
/// never an owner.
#[derive(Clone, Copy, PartialEq, Eq, Structural, Debug, Hash)]
pub struct Entity {
    pub bits: u64,
}

/// What the loader has reported about an asset.
#[derive(Clone, Copy, PartialEq, Eq, Structural, Debug)]
pub enum LoadState {
    Loading,
    Loaded,
    Failed,
}

/// A durable, shared handle to an asset, with the loader's last report.
#[derive(Clone, Copy, PartialEq, Eq, Structural, Debug)]
pub struct AssetHandle {
    pub id: u64,
    pub state: LoadState,
}

impl AssetHandle {
    /// Whether an instance may be created from this handle.
    pub open spec fn resolved(&self) -> bool {
        self.state == LoadState::Loaded
    }

    pub fn is_resolved(&self) -> (b: bool)
        ensures
            b == self.resolved(),
    {
        self.state == LoadState::Loaded
    }
}

/// The request to create a looping playback of `source` under the identity
/// `entity`.
#[derive(Clone, Copy, PartialEq, Eq, Structural, Debug)]
pub struct PlayMusic {
    pub entity: Entity,
    pub source: AssetHandle,
}

} // verus!
