use anim_binder::playback::start_looping;
use anim_binder::{
    ApplicationPhase, AppContext, AssetEvent, AssetHandle, AssetStore, ClipHandle, LifecycleError,
    PendingAssets, PlayCommand, PlaybackMode, PlayerId,
};

const ANIMATION: AssetHandle = AssetHandle { id: 10 };
const MODEL: AssetHandle = AssetHandle { id: 20 };
const OTHER: AssetHandle = AssetHandle { id: 30 };

fn loaded(id: AssetHandle) -> AssetEvent {
    AssetEvent::LoadedWithDependencies { id }
}

fn clips(ids: &[u64]) -> Vec<ClipHandle> {
    ids.iter().map(|id| ClipHandle::new(*id)).collect()
}

fn full_store() -> AssetStore {
    let mut store = AssetStore::new();
    store.insert(ANIMATION, clips(&[7, 8]));
    store.insert(MODEL, clips(&[1, 2, 3]));
    store.insert(OTHER, clips(&[4]));
    store
}

fn finished_context(store: &AssetStore) -> AppContext {
    let mut ctx = AppContext::new(PendingAssets::new(ANIMATION, MODEL));
    ctx.check(&vec![loaded(ANIMATION), loaded(MODEL)], store).unwrap();
    assert_eq!(ctx.phase(), ApplicationPhase::Finished);
    ctx
}

fn looping(player: u64, clip: u64) -> PlayCommand {
    PlayCommand { player: PlayerId::new(player), clip: ClipHandle::new(clip), mode: PlaybackMode::Loop }
}

#[test]
fn binder_leaves_exactly_the_captured_clip_on_the_model() {
    let mut store = full_store();
    let mut ctx = finished_context(&store);
    assert_eq!(ctx.finish(&mut store), Ok(()));
    assert!(ctx.is_bound());
    assert_eq!(store.animations(MODEL), Some(&clips(&[7])));
    assert_eq!(store.animations(ANIMATION), Some(&clips(&[7, 8])));
    assert_eq!(store.animations(OTHER), Some(&clips(&[4])));
    assert_eq!(ctx.active_animation(), Some(ClipHandle::new(7)));
    assert_eq!(ctx.phase(), ApplicationPhase::Finished);
}

#[test]
fn binder_fills_a_model_that_had_no_clips() {
    let mut store = AssetStore::new();
    store.insert(ANIMATION, clips(&[5]));
    store.insert(MODEL, clips(&[]));
    let mut ctx = finished_context(&store);
    assert_eq!(ctx.finish(&mut store), Ok(()));
    assert_eq!(store.animations(MODEL), Some(&clips(&[5])));
}

#[test]
fn binder_reports_a_missing_model() {
    let mut store = AssetStore::new();
    store.insert(ANIMATION, clips(&[7]));
    let mut ctx = finished_context(&store);
    assert_eq!(ctx.finish(&mut store), Err(LifecycleError::AssetMissing { asset: MODEL }));
    assert!(!ctx.is_bound());
    assert!(!store.contains(MODEL));
    assert_eq!(store.animations(ANIMATION), Some(&clips(&[7])));
}

#[test]
fn driver_starts_every_new_player_once_in_order() {
    let store = full_store();
    let ctx = finished_context(&store);
    let added = vec![PlayerId::new(3), PlayerId::new(1), PlayerId::new(2)];
    let commands = ctx.run_animation(&added).unwrap();
    assert_eq!(commands, vec![looping(3, 7), looping(1, 7), looping(2, 7)]);
}

#[test]
fn driver_is_idle_without_new_players() {
    let fresh = AppContext::new(PendingAssets::new(ANIMATION, MODEL));
    assert_eq!(fresh.run_animation(&vec![]), Ok(vec![]));
    let ctx = finished_context(&full_store());
    assert_eq!(ctx.run_animation(&vec![]), Ok(vec![]));
}

#[test]
fn player_before_any_animation_is_reported() {
    let mut ctx = AppContext::new(PendingAssets::new(ANIMATION, MODEL));
    assert_eq!(
        ctx.run_animation(&vec![PlayerId::new(1)]),
        Err(LifecycleError::NoActiveAnimation)
    );
    ctx.check(&vec![loaded(MODEL)], &AssetStore::new()).unwrap();
    assert_eq!(ctx.phase(), ApplicationPhase::Setup);
    assert_eq!(
        ctx.run_animation(&vec![PlayerId::new(1)]),
        Err(LifecycleError::NoActiveAnimation)
    );
}

#[test]
fn player_after_publication_but_before_finished_is_started() {
    let mut ctx = AppContext::new(PendingAssets::new(ANIMATION, MODEL));
    ctx.check(&vec![loaded(ANIMATION)], &full_store()).unwrap();
    assert_eq!(ctx.phase(), ApplicationPhase::Setup);
    assert_eq!(ctx.run_animation(&vec![PlayerId::new(4)]), Ok(vec![looping(4, 7)]));
}

#[test]
fn looping_commands_follow_the_players() {
    assert_eq!(start_looping(&vec![], ClipHandle::new(1)), vec![]);
    assert_eq!(
        start_looping(&vec![PlayerId::new(9), PlayerId::new(9)], ClipHandle::new(1)),
        vec![looping(9, 1), looping(9, 1)]
    );
}
