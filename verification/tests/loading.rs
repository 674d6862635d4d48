use blazingice::assets::{
    choose_scene, CarModelVisibility, FallbackReason, GltfScenes, LoadStatus, MapAction, MapAsset,
    SceneSource, Visibility,
};

fn scenes(has_default_scene: bool, scene_count: usize) -> GltfScenes {
    GltfScenes { has_default_scene, scene_count }
}

#[test]
fn default_scene_is_preferred_then_first() {
    assert_eq!(choose_scene(scenes(true, 3)), Some(SceneSource::Default));
    assert_eq!(choose_scene(scenes(false, 2)), Some(SceneSource::First));
    assert_eq!(choose_scene(scenes(false, 0)), None);
}

#[test]
fn map_waits_then_spawns_once() {
    let mut map = MapAsset::new();
    assert!(!map.scene_spawned() && !map.fallback_shown());
    assert_eq!(map.step(LoadStatus::NotLoaded, None), MapAction::Wait);
    assert_eq!(map.step(LoadStatus::Loading, None), MapAction::Wait);
    assert_eq!(map.step(LoadStatus::Loaded, None), MapAction::Wait);
    assert!(!map.scene_spawned());
    assert_eq!(
        map.step(LoadStatus::Loaded, Some(scenes(false, 1))),
        MapAction::SpawnScene(SceneSource::First)
    );
    assert!(map.scene_spawned() && !map.fallback_shown());
    assert_eq!(map.step(LoadStatus::Loaded, Some(scenes(true, 1))), MapAction::Wait);
    assert_eq!(map.step(LoadStatus::Failed, None), MapAction::Wait);
    assert!(map.scene_spawned() && !map.fallback_shown());
}

#[test]
fn failed_map_shows_fallback_once() {
    let mut map = MapAsset::new();
    assert_eq!(
        map.step(LoadStatus::Failed, None),
        MapAction::ShowFallback(FallbackReason::LoadFailed)
    );
    assert!(map.fallback_shown() && !map.scene_spawned());
    assert_eq!(map.step(LoadStatus::Loaded, Some(scenes(true, 1))), MapAction::Wait);
    assert!(!map.scene_spawned());
}

#[test]
fn map_without_scene_shows_fallback() {
    let mut map = MapAsset::new();
    assert_eq!(
        map.step(LoadStatus::Loaded, Some(scenes(false, 0))),
        MapAction::ShowFallback(FallbackReason::NoScene)
    );
    assert!(map.fallback_shown());
}

#[test]
fn map_spawns_default_scene() {
    let mut map = MapAsset::new();
    assert_eq!(
        map.step(LoadStatus::Loaded, Some(scenes(true, 0))),
        MapAction::SpawnScene(SceneSource::Default)
    );
}

#[test]
fn car_model_falls_back_on_failure_and_stays() {
    let mut v = CarModelVisibility::new();
    assert_eq!(v.glb, Visibility::Inherited);
    assert_eq!(v.fallback, Visibility::Hidden);
    v.step(LoadStatus::Loading);
    assert_eq!(v, CarModelVisibility::new());
    v.step(LoadStatus::Loaded);
    assert_eq!(v, CarModelVisibility::new());
    v.step(LoadStatus::Failed);
    assert_eq!(v.glb, Visibility::Hidden);
    assert_eq!(v.fallback, Visibility::Visible);
    v.step(LoadStatus::Loaded);
    assert_eq!(v.glb, Visibility::Hidden);
    assert_eq!(v.fallback, Visibility::Visible);
}
