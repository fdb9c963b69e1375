//! The state of the application context and what each component does to it,
//! as mathematical functions. The executable context is specified against
//! these, and the laws of a whole run are proved about them.

use crate::asset::{batch_reports_loaded, AssetEvent, AssetHandle, ClipHandle, PendingAssets};
use crate::error::LifecycleError;
use crate::phase::ApplicationPhase;
use crate::playback::{looping_commands, PlayCommand, PlayerId};
use vstd::prelude::*;

verus! {

/// Everything the application remembers between two ticks.
#[derive(Clone, Copy, Debug, PartialEq, Eq, Structural)]
pub struct ContextState {
    /// The two containers that were requested at startup.
    pub pending: PendingAssets,
    /// The current phase.
    pub phase: ApplicationPhase,
    /// Whether the model container has been reported as fully loaded.
    pub model_loaded: bool,
    /// The clip that was captured when the animation container was first
    /// reported as fully loaded.
    pub active_animation: Option<ClipHandle>,
    /// Whether the binder has written the active animation into the model.
    pub bound: bool,
}

/// What the host hands to one tick: the asset events since the last tick,
/// the clip lists of the loaded containers, and the players that appeared
/// since the last tick.
pub struct TickInput {
    pub events: Seq<AssetEvent>,
    pub assets: Map<AssetHandle, Seq<ClipHandle>>,
    pub added: Seq<PlayerId>,
}

/// The input of the tick in which the host reports `events` and `added`
/// while the store holds `assets`.
pub open spec fn tick_input(
    events: Seq<AssetEvent>,
    assets: Map<AssetHandle, Seq<ClipHandle>>,
    added: Seq<PlayerId>,
) -> TickInput {
    TickInput { events, assets, added }
}

impl ContextState {
    /// The state right after startup.
    pub open spec fn initial(pending: PendingAssets) -> ContextState {
        ContextState {
            pending,
            phase: ApplicationPhase::Setup,
            model_loaded: false,
            active_animation: None,
            bound: false,
        }
    }

    /// Whether the animation container has been reported as fully loaded.
    pub open spec fn animation_loaded(self) -> bool {
        self.active_animation is Some
    }

    /// The phase is `Finished` exactly when both containers have been
    /// reported, and the binder has run in no other phase.
    pub open spec fn wf(self) -> bool {
        &&& self.phase == ApplicationPhase::Finished <==> self.model_loaded
            && self.animation_loaded()
        &&& self.bound ==> self.phase == ApplicationPhase::Finished
    }

    /// Whether the readiness gate captures a clip from this batch: the animation
    /// container is reported for the first time.
    pub open spec fn gate_publishes(self, events: Seq<AssetEvent>) -> bool {
        &&& self.phase == ApplicationPhase::Setup
        &&& !self.animation_loaded()
        &&& batch_reports_loaded(events, self.pending.animation)
    }

    /// Why the readiness gate fails on this batch, if it does: it has to capture a
    /// clip, and the animation container is absent or holds none.
    pub open spec fn gate_failure(
        self,
        events: Seq<AssetEvent>,
        assets: Map<AssetHandle, Seq<ClipHandle>>,
    ) -> Option<LifecycleError> {
        if !self.gate_publishes(events) {
            None
        } else if !assets.contains_key(self.pending.animation) {
            Some(LifecycleError::AssetMissing { asset: self.pending.animation })
        } else if assets[self.pending.animation].len() == 0 {
            Some(LifecycleError::EmptyClipList { asset: self.pending.animation })
        } else {
            None
        }
    }

    /// The state after a gate tick that did not fail.
    pub open spec fn after_gate(
        self,
        events: Seq<AssetEvent>,
        assets: Map<AssetHandle, Seq<ClipHandle>>,
    ) -> ContextState {
        if self.phase == ApplicationPhase::Finished {
            self
        } else {
            let model_loaded = self.model_loaded || batch_reports_loaded(
                events,
                self.pending.model,
            );
            let active_animation = if self.gate_publishes(events) {
                Some(assets[self.pending.animation][0])
            } else {
                self.active_animation
            };
            ContextState {
                pending: self.pending,
                phase: if model_loaded && active_animation is Some {
                    ApplicationPhase::Finished
                } else {
                    ApplicationPhase::Setup
                },
                model_loaded,
                active_animation,
                bound: self.bound,
            }
        }
    }

    /// Whether the entry action of `Finished` is still owed.
    pub open spec fn binder_due(self) -> bool {
        self.phase == ApplicationPhase::Finished && !self.bound
    }

    /// Why the binder fails, if it does: the model container is absent.
    pub open spec fn bind_failure(self, assets: Map<AssetHandle, Seq<ClipHandle>>) -> Option<
        LifecycleError,
    > {
        if assets.contains_key(self.pending.model) {
            None
        } else {
            Some(LifecycleError::AssetMissing { asset: self.pending.model })
        }
    }

    /// The state after the binder has run.
    pub open spec fn after_bind(self) -> ContextState {
        ContextState { bound: true, ..self }
    }

    /// The asset store after the binder has run: the model's clip list is
    /// the active animation and nothing else.
    pub open spec fn bound_assets(self, assets: Map<AssetHandle, Seq<ClipHandle>>) -> Map<
        AssetHandle,
        Seq<ClipHandle>,
    > {
        assets.insert(self.pending.model, seq![self.active_animation->0])
    }

    /// Why the driver fails, if it does: a player appeared and no animation
    /// has been published.
    pub open spec fn drive_failure(self, added: Seq<PlayerId>) -> Option<LifecycleError> {
        if added.len() > 0 && !self.animation_loaded() {
            Some(LifecycleError::NoActiveAnimation)
        } else {
            None
        }
    }

    /// The commands of a driver tick that did not fail.
    pub open spec fn drive_commands(self, added: Seq<PlayerId>) -> Seq<PlayCommand> {
        match self.active_animation {
            Some(clip) => looping_commands(added, clip),
            None => Seq::empty(),
        }
    }

    /// Whether the binder runs, and succeeds, in this tick.
    pub open spec fn tick_binds(self, input: TickInput) -> bool {
        let gated = self.after_gate(input.events, input.assets);
        &&& self.gate_failure(input.events, input.assets) is None
        &&& gated.binder_due()
        &&& gated.bind_failure(input.assets) is None
    }

    /// The state after one tick: the readiness gate runs while in `Setup`, then the
    /// binder if it is due. A component that fails leaves the state as it
    /// found it, and nothing runs after it.
    pub open spec fn tick_state(self, input: TickInput) -> ContextState {
        if self.gate_failure(input.events, input.assets) is Some {
            self
        } else if self.tick_binds(input) {
            self.after_gate(input.events, input.assets).after_bind()
        } else {
            self.after_gate(input.events, input.assets)
        }
    }

    /// The asset store after one tick.
    pub open spec fn tick_assets(self, input: TickInput) -> Map<AssetHandle, Seq<ClipHandle>> {
        if self.tick_binds(input) {
            self.after_gate(input.events, input.assets).bound_assets(input.assets)
        } else {
            input.assets
        }
    }

    /// The failure of the first component that fails in this tick, if any:
    /// the readiness gate, then the binder, then the driver.
    pub open spec fn tick_failure(self, input: TickInput) -> Option<LifecycleError> {
        let gated = self.after_gate(input.events, input.assets);
        if self.gate_failure(input.events, input.assets) is Some {
            self.gate_failure(input.events, input.assets)
        } else if gated.binder_due() && gated.bind_failure(input.assets) is Some {
            gated.bind_failure(input.assets)
        } else {
            self.tick_state(input).drive_failure(input.added)
        }
    }

    /// The playback commands of a tick that did not fail.
    pub open spec fn tick_commands(self, input: TickInput) -> Seq<PlayCommand> {
        self.tick_state(input).drive_commands(input.added)
    }

    /// Whether this tick takes the application from `Setup` to `Finished`.
    pub open spec fn tick_enters_finished(self, input: TickInput) -> bool {
        self.phase == ApplicationPhase::Setup && self.tick_state(input).phase
            == ApplicationPhase::Finished
    }
}

} // verus!
