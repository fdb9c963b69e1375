use anim_binder::{
    ApplicationPhase, AppContext, AssetEvent, AssetHandle, AssetStore, ClipHandle, LifecycleError,
    PendingAssets, PlayCommand, PlaybackMode, PlayerId,
};

const ANIMATION: AssetHandle = AssetHandle { id: 10 };
const MODEL: AssetHandle = AssetHandle { id: 20 };

fn loaded(id: AssetHandle) -> AssetEvent {
    AssetEvent::LoadedWithDependencies { id }
}

fn clips(ids: &[u64]) -> Vec<ClipHandle> {
    ids.iter().map(|id| ClipHandle::new(*id)).collect()
}

fn context() -> AppContext {
    AppContext::new(PendingAssets::new(ANIMATION, MODEL))
}

fn looping(player: u64, clip: u64) -> PlayCommand {
    PlayCommand { player: PlayerId::new(player), clip: ClipHandle::new(clip), mode: PlaybackMode::Loop }
}

#[test]
fn run_with_animation_first_binds_once_and_plays_afterwards() {
    let mut ctx = context();
    let mut store = AssetStore::new();

    let idle = ctx.tick(&vec![], &mut store, &vec![]).unwrap();
    assert_eq!(
        (idle.published, idle.entered_finished, idle.bound, idle.commands),
        (None, false, false, vec![])
    );

    store.insert(ANIMATION, clips(&[7, 8]));
    let first = ctx.tick(&vec![loaded(ANIMATION)], &mut store, &vec![]).unwrap();
    assert_eq!(
        (first.published, first.entered_finished, first.bound, first.commands),
        (Some(ClipHandle::new(7)), false, false, vec![])
    );
    assert_eq!(ctx.phase(), ApplicationPhase::Setup);

    store.insert(MODEL, clips(&[1, 2]));
    let second = ctx.tick(&vec![loaded(MODEL)], &mut store, &vec![PlayerId::new(5)]).unwrap();
    assert_eq!(
        (second.published, second.entered_finished, second.bound, second.commands),
        (None, true, true, vec![looping(5, 7)])
    );
    assert_eq!(ctx.phase(), ApplicationPhase::Finished);
    assert!(ctx.is_bound());
    assert_eq!(store.animations(MODEL), Some(&clips(&[7])));

    store.insert(MODEL, clips(&[1, 2]));
    store.insert(ANIMATION, clips(&[9]));
    let events = vec![loaded(MODEL), loaded(ANIMATION)];
    let later = ctx.tick(&events, &mut store, &vec![PlayerId::new(6)]).unwrap();
    assert_eq!(
        (later.published, later.entered_finished, later.bound, later.commands),
        (None, false, false, vec![looping(6, 7)])
    );
    assert_eq!(store.animations(MODEL), Some(&clips(&[1, 2])));
    assert_eq!(ctx.active_animation(), Some(ClipHandle::new(7)));
}

#[test]
fn run_with_both_at_once_does_everything_in_one_tick() {
    let mut ctx = context();
    let mut store = AssetStore::new();
    store.insert(ANIMATION, clips(&[3]));
    store.insert(MODEL, clips(&[]));
    let events = vec![loaded(MODEL), loaded(ANIMATION)];
    let report = ctx.tick(&events, &mut store, &vec![PlayerId::new(1), PlayerId::new(2)]).unwrap();
    assert_eq!(report.published, Some(ClipHandle::new(3)));
    assert!(report.entered_finished);
    assert!(report.bound);
    assert_eq!(report.commands, vec![looping(1, 3), looping(2, 3)]);
    assert_eq!(store.animations(MODEL), Some(&clips(&[3])));
}

#[test]
fn tick_stops_at_a_failing_gate() {
    let mut ctx = context();
    let mut store = AssetStore::new();
    store.insert(ANIMATION, clips(&[]));
    store.insert(MODEL, clips(&[1]));
    let events = vec![loaded(MODEL), loaded(ANIMATION)];
    let result = ctx.tick(&events, &mut store, &vec![]);
    assert_eq!(result.err(), Some(LifecycleError::EmptyClipList { asset: ANIMATION }));
    assert_eq!(ctx.phase(), ApplicationPhase::Setup);
    assert!(!ctx.model_loaded());
    assert_eq!(store.animations(MODEL), Some(&clips(&[1])));
}

#[test]
fn tick_stops_at_a_failing_binder_and_binds_when_the_model_is_there() {
    let mut ctx = context();
    let mut store = AssetStore::new();
    store.insert(ANIMATION, clips(&[3]));
    let events = vec![loaded(MODEL), loaded(ANIMATION)];
    let result = ctx.tick(&events, &mut store, &vec![PlayerId::new(1)]);
    assert_eq!(result.err(), Some(LifecycleError::AssetMissing { asset: MODEL }));
    assert_eq!(ctx.phase(), ApplicationPhase::Finished);
    assert!(!ctx.is_bound());

    store.insert(MODEL, clips(&[1]));
    let retry = ctx.tick(&vec![], &mut store, &vec![PlayerId::new(1)]).unwrap();
    assert!(retry.bound);
    assert!(!retry.entered_finished);
    assert_eq!(retry.commands, vec![looping(1, 3)]);
    assert_eq!(store.animations(MODEL), Some(&clips(&[3])));
}

#[test]
fn tick_reports_a_player_that_comes_too_early() {
    let mut ctx = context();
    let mut store = AssetStore::new();
    store.insert(MODEL, clips(&[1]));
    let result = ctx.tick(&vec![loaded(MODEL)], &mut store, &vec![PlayerId::new(1)]);
    assert_eq!(result.err(), Some(LifecycleError::NoActiveAnimation));
    assert!(ctx.model_loaded());
    assert_eq!(ctx.phase(), ApplicationPhase::Setup);
}
