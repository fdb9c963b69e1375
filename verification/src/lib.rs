//! Lifecycle of an application that loads a rigged model and a separate
//! animation container, waits until both are fully loaded, binds the first
//! clip of the animation container onto the model, and starts looping
//! playback on every animation player that appears afterwards.
//!
//! The host engine owns the assets, the scene and the scheduler. This crate
//! holds the decisions: what a batch of asset events means for the
//! application phase, when the active animation is published, what the
//! binder writes into the model asset, and which playback commands a tick
//! yields. The host feeds each tick with plain values and carries out what
//! the tick returns.

pub mod asset;
pub mod context;
pub mod error;
pub mod lifecycle;
pub mod model;
pub mod phase;
pub mod playback;
pub mod store;

pub use asset::{AssetEvent, AssetHandle, ClipHandle, PendingAssets};
pub use context::{AppContext, GateReport, TickReport};
pub use error::LifecycleError;
pub use model::{ContextState, TickInput};
pub use phase::ApplicationPhase;
pub use playback::{PlayCommand, PlaybackMode, PlayerId};
pub use store::AssetStore;
