//! Whole runs: a context at startup and the ticks that follow. The laws
//! here say what holds of every run, whatever the host reports and in
//! whatever order.

use crate::asset::{batch_reports_loaded, AssetHandle, PendingAssets};
use crate::model::{ContextState, TickInput};
use crate::phase::ApplicationPhase;
use crate::playback::{PlayCommand, PlaybackMode, PlayerId};
use vstd::prelude::*;

verus! {

/// The state after the given ticks, in order.
pub open spec fn run_state(start: ContextState, ticks: Seq<TickInput>) -> ContextState
    decreases ticks.len(),
{
    if ticks.len() == 0 {
        start
    } else {
        run_state(start, ticks.drop_last()).tick_state(ticks.last())
    }
}

/// Whether no tick of the run failed.
pub open spec fn run_ok(start: ContextState, ticks: Seq<TickInput>) -> bool
    decreases ticks.len(),
{
    ticks.len() > 0 ==> {
        &&& run_ok(start, ticks.drop_last())
        &&& run_state(start, ticks.drop_last()).tick_failure(ticks.last()) is None
    }
}

/// Whether the readiness gate failed in no tick of the run.
pub open spec fn gate_never_failed(start: ContextState, ticks: Seq<TickInput>) -> bool
    decreases ticks.len(),
{
    ticks.len() > 0 ==> {
        &&& gate_never_failed(start, ticks.drop_last())
        &&& run_state(start, ticks.drop_last()).gate_failure(
            ticks.last().events,
            ticks.last().assets,
        ) is None
    }
}

/// Whether the binder failed in no tick of the run.
pub open spec fn binder_never_failed(start: ContextState, ticks: Seq<TickInput>) -> bool
    decreases ticks.len(),
{
    ticks.len() > 0 ==> {
        let before = run_state(start, ticks.drop_last());
        let gated = before.after_gate(ticks.last().events, ticks.last().assets);
        &&& binder_never_failed(start, ticks.drop_last())
        &&& before.gate_failure(ticks.last().events, ticks.last().assets) is None
            && gated.binder_due() ==> gated.bind_failure(ticks.last().assets) is None
    }
}

/// Whether some tick of the run reported `asset` as fully loaded.
pub open spec fn observed(ticks: Seq<TickInput>, asset: AssetHandle) -> bool {
    exists|i: int| 0 <= i < ticks.len() && batch_reports_loaded(#[trigger] ticks[i].events, asset)
}

/// How many ticks of the run took the application from `Setup` to
/// `Finished`.
pub open spec fn transitions(start: ContextState, ticks: Seq<TickInput>) -> nat
    decreases ticks.len(),
{
    if ticks.len() == 0 {
        0
    } else {
        let before = run_state(start, ticks.drop_last());
        transitions(start, ticks.drop_last()) + if before.tick_enters_finished(ticks.last()) {
            1nat
        } else {
            0nat
        }
    }
}

/// How many ticks of the run ran the binder to the end.
pub open spec fn binder_runs(start: ContextState, ticks: Seq<TickInput>) -> nat
    decreases ticks.len(),
{
    if ticks.len() == 0 {
        0
    } else {
        let before = run_state(start, ticks.drop_last());
        binder_runs(start, ticks.drop_last()) + if before.tick_binds(ticks.last()) {
            1nat
        } else {
            0nat
        }
    }
}

/// The playback commands of all ticks of the run, in order.
pub open spec fn run_commands(start: ContextState, ticks: Seq<TickInput>) -> Seq<PlayCommand>
    decreases ticks.len(),
{
    if ticks.len() == 0 {
        Seq::empty()
    } else {
        run_commands(start, ticks.drop_last()) + run_state(start, ticks.drop_last()).tick_commands(
            ticks.last(),
        )
    }
}

/// The players that appeared during the run, in order.
pub open spec fn run_added(ticks: Seq<TickInput>) -> Seq<PlayerId>
    decreases ticks.len(),
{
    if ticks.len() == 0 {
        Seq::empty()
    } else {
        run_added(ticks.drop_last()) + ticks.last().added
    }
}

/// A tick keeps a well-formed state well formed.
pub proof fn lemma_tick_preserves_wf(state: ContextState, input: TickInput)
    requires
        state.wf(),
    ensures
        state.tick_state(input).wf(),
        state.tick_state(input).pending == state.pending,
{
}

/// A run keeps a well-formed state well formed, and never changes the
/// pending handles.
pub proof fn lemma_run_preserves_wf(start: ContextState, ticks: Seq<TickInput>)
    requires
        start.wf(),
    ensures
        run_state(start, ticks).wf(),
        run_state(start, ticks).pending == start.pending,
    decreases ticks.len(),
{
    if ticks.len() > 0 {
        lemma_run_preserves_wf(start, ticks.drop_last());
        lemma_tick_preserves_wf(run_state(start, ticks.drop_last()), ticks.last());
    }
}

/// A run of `earlier` followed by `later` is the run of `later` from where
/// `earlier` ended.
pub proof fn lemma_run_split(start: ContextState, earlier: Seq<TickInput>, later: Seq<TickInput>)
    ensures
        run_state(start, earlier + later) == run_state(run_state(start, earlier), later),
    decreases later.len(),
{
    if later.len() == 0 {
        assert(earlier + later =~= earlier);
    } else {
        assert((earlier + later).drop_last() =~= earlier + later.drop_last());
        assert((earlier + later).last() == later.last());
        lemma_run_split(start, earlier, later.drop_last());
    }
}

/// A run in which no tick failed is one in which neither the readiness
/// gate nor the binder failed.
pub proof fn lemma_run_ok_components(start: ContextState, ticks: Seq<TickInput>)
    requires
        run_ok(start, ticks),
    ensures
        gate_never_failed(start, ticks),
        binder_never_failed(start, ticks),
    decreases ticks.len(),
{
    if ticks.len() > 0 {
        lemma_run_ok_components(start, ticks.drop_last());
    }
}

/// After a run in which the readiness gate never failed, the phase is
/// `Finished` exactly when both pending containers have been reported as
/// fully loaded, in whatever order and in the same tick or in different
/// ones. Since this holds of every prefix of the run too, the transition
/// comes with the tick that completes the pair, and not before.
pub proof fn lemma_finished_iff_both_observed(pending: PendingAssets, ticks: Seq<TickInput>)
    requires
        gate_never_failed(ContextState::initial(pending), ticks),
    ensures
        run_state(ContextState::initial(pending), ticks).model_loaded <==> observed(
            ticks,
            pending.model,
        ),
        run_state(ContextState::initial(pending), ticks).animation_loaded() <==> observed(
            ticks,
            pending.animation,
        ),
        run_state(ContextState::initial(pending), ticks).phase == ApplicationPhase::Finished
            <==> observed(ticks, pending.model) && observed(ticks, pending.animation),
    decreases ticks.len(),
{
    let start = ContextState::initial(pending);
    lemma_run_preserves_wf(start, ticks);
    if ticks.len() > 0 {
        let earlier = ticks.drop_last();
        let last = ticks.last();
        lemma_finished_iff_both_observed(pending, earlier);
        lemma_run_preserves_wf(start, earlier);
        lemma_observed_extends(earlier, last, pending.model);
        lemma_observed_extends(earlier, last, pending.animation);
        assert(earlier.push(last) =~= ticks);
    }
}

/// A container has been reported during a run extended by one tick exactly
/// when it had been reported before or is reported in that tick.
pub proof fn lemma_observed_extends(earlier: Seq<TickInput>, last: TickInput, asset: AssetHandle)
    ensures
        observed(earlier.push(last), asset) <==> observed(earlier, asset) || batch_reports_loaded(
            last.events,
            asset,
        ),
{
    let ticks = earlier.push(last);
    if observed(earlier, asset) {
        let i = choose|i: int|
            0 <= i < earlier.len() && batch_reports_loaded(#[trigger] earlier[i].events, asset);
        assert(batch_reports_loaded(ticks[i].events, asset));
    }
    if batch_reports_loaded(last.events, asset) {
        assert(batch_reports_loaded(ticks[earlier.len() as int].events, asset));
    }
    if observed(ticks, asset) {
        let i = choose|i: int|
            0 <= i < ticks.len() && batch_reports_loaded(#[trigger] ticks[i].events, asset);
        if i < earlier.len() {
            assert(batch_reports_loaded(earlier[i].events, asset));
        }
    }
}

/// `Finished` is terminal: no tick leaves it.
pub proof fn lemma_finished_is_terminal(state: ContextState, input: TickInput)
    requires
        state.phase == ApplicationPhase::Finished,
    ensures
        state.tick_state(input).phase == ApplicationPhase::Finished,
        !state.tick_enters_finished(input),
{
}

/// In every run the transition to `Finished` fires at most once, and it has
/// fired exactly when the run ends in `Finished`.
pub proof fn lemma_transition_fires_once(pending: PendingAssets, ticks: Seq<TickInput>)
    ensures
        transitions(ContextState::initial(pending), ticks) == if run_state(
            ContextState::initial(pending),
            ticks,
        ).phase == ApplicationPhase::Finished {
            1nat
        } else {
            0nat
        },
    decreases ticks.len(),
{
    if ticks.len() > 0 {
        lemma_transition_fires_once(pending, ticks.drop_last());
    }
}

/// Once an animation is published, no tick changes it.
pub proof fn lemma_tick_keeps_active_animation(state: ContextState, input: TickInput)
    requires
        state.animation_loaded(),
    ensures
        state.tick_state(input).active_animation == state.active_animation,
{
}

/// Once an animation is published, it stays the active animation for the
/// rest of the run.
pub proof fn lemma_active_animation_is_stable(
    start: ContextState,
    earlier: Seq<TickInput>,
    later: Seq<TickInput>,
)
    requires
        run_state(start, earlier).animation_loaded(),
    ensures
        run_state(start, earlier + later).active_animation == run_state(
            start,
            earlier,
        ).active_animation,
    decreases later.len(),
{
    lemma_run_split(start, earlier, later);
    if later.len() > 0 {
        lemma_run_split(start, earlier, later.drop_last());
        lemma_active_animation_is_stable(start, earlier, later.drop_last());
        lemma_tick_keeps_active_animation(
            run_state(run_state(start, earlier), later.drop_last()),
            later.last(),
        );
    }
}

/// In every run the binder runs at most once, and it has run exactly when
/// the context says so. After a run in which the binder never failed, it has
/// run exactly when `Finished` has been entered.
pub proof fn lemma_binder_runs_once(pending: PendingAssets, ticks: Seq<TickInput>)
    ensures
        binder_runs(ContextState::initial(pending), ticks) == if run_state(
            ContextState::initial(pending),
            ticks,
        ).bound {
            1nat
        } else {
            0nat
        },
        binder_never_failed(ContextState::initial(pending), ticks) ==> (run_state(
            ContextState::initial(pending),
            ticks,
        ).bound <==> run_state(ContextState::initial(pending), ticks).phase
            == ApplicationPhase::Finished),
    decreases ticks.len(),
{
    let start = ContextState::initial(pending);
    lemma_run_preserves_wf(start, ticks);
    if ticks.len() > 0 {
        lemma_binder_runs_once(pending, ticks.drop_last());
        lemma_run_preserves_wf(start, ticks.drop_last());
    }
}

/// When the binder runs, the model's clip list afterwards has exactly one
/// entry, the active animation, and no other container is touched.
pub proof fn lemma_binder_writes_active_animation(state: ContextState, input: TickInput)
    requires
        state.wf(),
        state.tick_binds(input),
    ensures
        state.tick_state(input).active_animation is Some,
        state.tick_assets(input).contains_key(state.pending.model),
        state.tick_assets(input)[state.pending.model] == seq![
            state.tick_state(input).active_animation->0,
        ],
        forall|other: AssetHandle|
            other != state.pending.model ==> (#[trigger] state.tick_assets(input).contains_key(
                other,
            ) <==> input.assets.contains_key(other)),
        forall|other: AssetHandle|
            other != state.pending.model && input.assets.contains_key(other)
                ==> #[trigger] state.tick_assets(input)[other] == input.assets[other],
{
}

/// The clip that the binder writes into the model is the clip that the readiness gate
/// captured: the first clip that the animation container held in the tick
/// that first reported it, whatever the container holds later.
pub proof fn lemma_binder_writes_captured_clip(
    pending: PendingAssets,
    ticks: Seq<TickInput>,
    captured_at: int,
    bound_at: int,
)
    requires
        0 <= captured_at <= bound_at < ticks.len(),
        run_state(ContextState::initial(pending), ticks.take(captured_at)).gate_publishes(
            ticks[captured_at].events,
        ),
        run_state(ContextState::initial(pending), ticks.take(captured_at)).gate_failure(
            ticks[captured_at].events,
            ticks[captured_at].assets,
        ) is None,
        run_state(ContextState::initial(pending), ticks.take(bound_at)).tick_binds(
            ticks[bound_at],
        ),
    ensures
        run_state(ContextState::initial(pending), ticks.take(bound_at)).tick_assets(
            ticks[bound_at],
        )[pending.model] == seq![ticks[captured_at].assets[pending.animation][0]],
{
    let start = ContextState::initial(pending);
    let before_capture = run_state(start, ticks.take(captured_at));
    let before_bind = run_state(start, ticks.take(bound_at));
    let through_capture = ticks.take(captured_at + 1);
    let clip = ticks[captured_at].assets[pending.animation][0];
    lemma_run_preserves_wf(start, ticks.take(captured_at));
    lemma_run_preserves_wf(start, ticks.take(bound_at));
    assert(through_capture.drop_last() =~= ticks.take(captured_at));
    assert(through_capture.last() == ticks[captured_at]);
    assert(run_state(start, through_capture).active_animation == Some(clip));
    lemma_binder_writes_active_animation(before_bind, ticks[bound_at]);
    lemma_tick_keeps_active_animation(run_state(start, through_capture), ticks[bound_at]);
    if captured_at == bound_at {
        assert(before_bind == before_capture);
    } else {
        let between = ticks.subrange(captured_at + 1, bound_at);
        assert(through_capture + between =~= ticks.take(bound_at));
        lemma_active_animation_is_stable(start, through_capture, between);
        lemma_tick_keeps_active_animation(before_bind, ticks[bound_at]);
    }
}

/// Over a run in which no tick failed, the driver issues exactly one command
/// for each appearance of a player, in the order of appearance, and none
/// besides: a player that appeared in one tick is not commanded again in a
/// later one. Every command orders looping playback of the active animation.
pub proof fn lemma_each_player_started_once(start: ContextState, ticks: Seq<TickInput>)
    requires
        run_ok(start, ticks),
    ensures
        run_commands(start, ticks).len() == run_added(ticks).len(),
        forall|i: int|
            0 <= i < run_added(ticks).len() ==> {
                &&& (#[trigger] run_commands(start, ticks)[i]).player == run_added(ticks)[i]
                &&& run_commands(start, ticks)[i].mode == PlaybackMode::Loop
                &&& run_state(start, ticks).active_animation == Some(
                    run_commands(start, ticks)[i].clip,
                )
            },
    decreases ticks.len(),
{
    if ticks.len() > 0 {
        let earlier = ticks.drop_last();
        let last = ticks.last();
        let before = run_state(start, earlier);
        lemma_each_player_started_once(start, earlier);
        if run_added(earlier).len() > 0 {
            assert(run_commands(start, earlier)[0].player == run_added(earlier)[0]);
            lemma_tick_keeps_active_animation(before, last);
        }
        assert forall|i: int| 0 <= i < run_added(ticks).len() implies {
            &&& (#[trigger] run_commands(start, ticks)[i]).player == run_added(ticks)[i]
            &&& run_commands(start, ticks)[i].mode == PlaybackMode::Loop
            &&& run_state(start, ticks).active_animation == Some(run_commands(start, ticks)[i].clip)
        } by {
            if i < run_added(earlier).len() {
                assert(run_commands(start, ticks)[i] == run_commands(start, earlier)[i]);
            } else {
                let j = i - run_added(earlier).len();
                assert(run_commands(start, ticks)[i] == before.tick_commands(last)[j]);
                assert(run_added(ticks)[i] == last.added[j]);
            }
        }
    }
}

} // verus!
