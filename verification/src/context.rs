//! The application context: the state that the host keeps between ticks,
//! and the three components that act on it.

use crate::asset::{any_loaded_with_dependencies, AssetEvent, ClipHandle, PendingAssets};
use crate::error::LifecycleError;
use crate::model::{tick_input, ContextState};
use crate::phase::ApplicationPhase;
use crate::playback::{start_looping, PlayCommand, PlayerId};
use crate::store::AssetStore;
use vstd::prelude::*;

verus! {

/// The state of one application, from startup on. It is created once, with
/// the two pending handles, and handed to every component by reference.
pub struct AppContext {
    state: ContextState,
}

/// What a gate tick did.
#[derive(Clone, Copy, Debug, PartialEq, Eq, Structural)]
pub struct GateReport {
    /// The clip that this tick published as the active animation, if any.
    pub published: Option<ClipHandle>,
    /// Whether this tick took the application from `Setup` to `Finished`.
    pub entered_finished: bool,
}

/// What a whole tick did.
pub struct TickReport {
    /// The clip that the readiness gate published in this tick, if any.
    pub published: Option<ClipHandle>,
    /// Whether this tick took the application from `Setup` to `Finished`.
    pub entered_finished: bool,
    /// Whether the binder rewrote the model's clip list in this tick.
    pub bound: bool,
    /// The playback commands for the players that appeared.
    pub commands: Vec<PlayCommand>,
}

impl View for AppContext {
    type V = ContextState;

    closed spec fn view(&self) -> ContextState {
        self.state
    }
}

impl AppContext {
    #[verifier::type_invariant]
    spec fn well_formed(self) -> bool {
        self.state.wf()
    }

    /// The context at startup: both containers pending, no animation
    /// published, phase `Setup`.
    pub fn new(pending: PendingAssets) -> (context: Self)
        ensures
            context@ == ContextState::initial(pending),
            context@.wf(),
    {
        AppContext {
            state: ContextState {
                pending,
                phase: ApplicationPhase::Setup,
                model_loaded: false,
                active_animation: None,
                bound: false,
            },
        }
    }

    pub fn pending(&self) -> (pending: PendingAssets)
        ensures
            pending == self@.pending,
    {
        self.state.pending
    }

    pub fn phase(&self) -> (phase: ApplicationPhase)
        ensures
            phase == self@.phase,
    {
        self.state.phase
    }

    pub fn model_loaded(&self) -> (loaded: bool)
        ensures
            loaded == self@.model_loaded,
    {
        self.state.model_loaded
    }

    pub fn animation_loaded(&self) -> (loaded: bool)
        ensures
            loaded == self@.animation_loaded(),
    {
        self.state.active_animation.is_some()
    }

    pub fn active_animation(&self) -> (clip: Option<ClipHandle>)
        ensures
            clip == self@.active_animation,
    {
        self.state.active_animation
    }

    pub fn is_bound(&self) -> (bound: bool)
        ensures
            bound == self@.bound,
    {
        self.state.bound
    }

    /// The readiness gate. While in `Setup`, it takes the asset events since
    /// the last tick: a report that the model container is fully loaded is
    /// remembered; the first report that the animation container is fully
    /// loaded makes the container's first clip the active animation; once
    /// both have been reported, in this tick or an earlier one, the phase
    /// becomes `Finished`. In `Finished` it does nothing.
    ///
    /// It fails, and changes nothing, when it has to capture the clip and
    /// the store does not hold the animation container, or the container
    /// holds no clip.
    pub fn check(&mut self, events: &Vec<AssetEvent>, assets: &AssetStore) -> (result: Result<
        GateReport,
        LifecycleError,
    >)
        ensures
            final(self)@.wf(),
            match result {
                Ok(report) => {
                    &&& old(self)@.gate_failure(events@, assets@) is None
                    &&& final(self)@ == old(self)@.after_gate(events@, assets@)
                    &&& report.published == (if old(self)@.gate_publishes(events@) {
                        final(self)@.active_animation
                    } else {
                        None
                    })
                    &&& report.entered_finished == (old(self)@.phase == ApplicationPhase::Setup
                        && final(self)@.phase == ApplicationPhase::Finished)
                },
                Err(error) => {
                    &&& old(self)@.gate_failure(events@, assets@) == Some(error)
                    &&& final(self)@ == old(self)@
                },
            },
    {
        proof {
            use_type_invariant(&*self);
        }
        let state = self.state;
        if state.phase.is_terminal() {
            return Ok(GateReport { published: None, entered_finished: false });
        }
        let model_loaded = state.model_loaded || any_loaded_with_dependencies(
            events,
            state.pending.model,
        );
        let mut published: Option<ClipHandle> = None;
        if state.active_animation.is_none() && any_loaded_with_dependencies(
            events,
            state.pending.animation,
        ) {
            match assets.animations(state.pending.animation) {
                None => {
                    return Err(LifecycleError::AssetMissing { asset: state.pending.animation });
                },
                Some(clips) => {
                    if clips.len() == 0 {
                        return Err(
                            LifecycleError::EmptyClipList { asset: state.pending.animation },
                        );
                    }
                    published = Some(clips[0]);
                },
            }
        }
        let active_animation = if published.is_some() {
            published
        } else {
            state.active_animation
        };
        let entered_finished = model_loaded && active_animation.is_some();
        self.state = ContextState {
            pending: state.pending,
            phase: if entered_finished {
                ApplicationPhase::Finished
            } else {
                ApplicationPhase::Setup
            },
            model_loaded,
            active_animation,
            bound: state.bound,
        };
        Ok(GateReport { published, entered_finished })
    }

    /// The animation binder, the entry action of `Finished`. It replaces the
    /// clip list of the model container by the active animation alone.
    ///
    /// It fails, and changes nothing, when the store does not hold the model
    /// container.
    pub fn finish(&mut self, assets: &mut AssetStore) -> (result: Result<(), LifecycleError>)
        requires
            old(self)@.binder_due(),
        ensures
            final(self)@.wf(),
            match result {
                Ok(()) => {
                    &&& old(self)@.bind_failure(old(assets)@) is None
                    &&& final(self)@ == old(self)@.after_bind()
                    &&& final(assets)@ == old(self)@.bound_assets(old(assets)@)
                },
                Err(error) => {
                    &&& old(self)@.bind_failure(old(assets)@) == Some(error)
                    &&& final(self)@ == old(self)@
                    &&& final(assets)@ == old(assets)@
                },
            },
    {
        proof {
            use_type_invariant(&*self);
        }
        let state = self.state;
        if !assets.contains(state.pending.model) {
            return Err(LifecycleError::AssetMissing { asset: state.pending.model });
        }
        let clip = state.active_animation.unwrap();
        let mut animations: Vec<ClipHandle> = Vec::new();
        animations.push(clip);
        assert(animations@ =~= seq![clip]);
        assets.insert(state.pending.model, animations);
        self.state = ContextState {
            pending: state.pending,
            phase: state.phase,
            model_loaded: state.model_loaded,
            active_animation: state.active_animation,
            bound: true,
        };
        Ok(())
    }

    /// The playback driver. For each player that appeared since the last
    /// tick, in the order given, it orders looping playback of the active
    /// animation.
    ///
    /// It fails when a player appeared and no animation has been published.
    pub fn run_animation(&self, added: &Vec<PlayerId>) -> (result: Result<
        Vec<PlayCommand>,
        LifecycleError,
    >)
        ensures
            match result {
                Ok(commands) => {
                    &&& self@.drive_failure(added@) is None
                    &&& commands@ == self@.drive_commands(added@)
                },
                Err(error) => self@.drive_failure(added@) == Some(error),
            },
    {
        match self.state.active_animation {
            Some(clip) => Ok(start_looping(added, clip)),
            None => {
                if added.len() > 0 {
                    Err(LifecycleError::NoActiveAnimation)
                } else {
                    let commands: Vec<PlayCommand> = Vec::new();
                    assert(commands@ =~= Seq::<PlayCommand>::empty());
                    Ok(commands)
                }
            },
        }
    }

    /// One tick of the scheduler: the readiness gate while in `Setup`, the binder when
    /// `Finished` has been entered and the binder has not run yet, then the
    /// driver. The first component that fails ends the tick; what ran before
    /// it stays done.
    pub fn tick(
        &mut self,
        events: &Vec<AssetEvent>,
        assets: &mut AssetStore,
        added: &Vec<PlayerId>,
    ) -> (result: Result<TickReport, LifecycleError>)
        ensures
            final(self)@.wf(),
            final(self)@ == old(self)@.tick_state(tick_input(events@, old(assets)@, added@)),
            final(assets)@ == old(self)@.tick_assets(tick_input(events@, old(assets)@, added@)),
            match result {
                Ok(report) => {
                    let input = tick_input(events@, old(assets)@, added@);
                    &&& old(self)@.tick_failure(input) is None
                    &&& report.published == (if old(self)@.gate_publishes(events@) {
                        final(self)@.active_animation
                    } else {
                        None
                    })
                    &&& report.entered_finished == old(self)@.tick_enters_finished(input)
                    &&& report.bound == old(self)@.tick_binds(input)
                    &&& report.commands@ == old(self)@.tick_commands(input)
                },
                Err(error) => old(self)@.tick_failure(tick_input(events@, old(assets)@, added@))
                    == Some(error),
            },
    {
        let gate = match self.check(events, assets) {
            Ok(report) => report,
            Err(error) => {
                return Err(error);
            },
        };
        let mut bound = false;
        if self.phase().is_terminal() && !self.is_bound() {
            match self.finish(assets) {
                Ok(()) => {
                    bound = true;
                },
                Err(error) => {
                    return Err(error);
                },
            }
        }
        match self.run_animation(added) {
            Ok(commands) => Ok(
                TickReport {
                    published: gate.published,
                    entered_finished: gate.entered_finished,
                    bound,
                    commands,
                },
            ),
            Err(error) => Err(error),
        }
    }
}

} // verus!
