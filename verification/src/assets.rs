//! What to show while the map and car models load, and when loading fails.

use vstd::prelude::*;

verus! {

/// Load status of an asset, as reported by the asset server.
#[derive(Clone, Copy, Debug, PartialEq, Eq, Structural)]
pub enum LoadStatus {
    NotLoaded,
    Loading,
    Loaded,
    Failed,
}

/// Visibility of a rendered entity.
#[derive(Clone, Copy, Debug, PartialEq, Eq, Structural)]
pub enum Visibility {
    Inherited,
    Hidden,
    Visible,
}

/// The scenes that a loaded glTF file offers.
#[derive(Clone, Copy, Debug, PartialEq, Eq, Structural)]
pub struct GltfScenes {
    pub has_default_scene: bool,
    pub scene_count: usize,
}

/// Which scene of a glTF file gets spawned.
#[derive(Clone, Copy, Debug, PartialEq, Eq, Structural)]
pub enum SceneSource {
    /// The scene that the file marks as its default.
    Default,
    /// The first scene in the file.
    First,
}

/// Why the fallback ground is shown.
#[derive(Clone, Copy, Debug, PartialEq, Eq, Structural)]
pub enum FallbackReason {
    /// The map file loaded, but holds no scene.
    NoScene,
    /// The map file failed to load.
    LoadFailed,
}

/// What to do with the map this frame.
#[derive(Clone, Copy, Debug, PartialEq, Eq, Structural)]
pub enum MapAction {
    /// Nothing to do (yet, or any more).
    Wait,
    /// Spawn the given scene of the map file.
    SpawnScene(SceneSource),
    /// Reveal the fallback ground grid.
    ShowFallback(FallbackReason),
}

/// The scene to spawn from a glTF file: its default scene, else its first.
pub open spec fn scene_choice(scenes: GltfScenes) -> Option<SceneSource> {
    if scenes.has_default_scene {
        Some(SceneSource::Default)
    } else if scenes.scene_count > 0 {
        Some(SceneSource::First)
    } else {
        None
    }
}

/// Picks the scene to spawn from a loaded glTF file.
pub fn choose_scene(scenes: GltfScenes) -> (choice: Option<SceneSource>)
    ensures
        choice == scene_choice(scenes),
{
    if scenes.has_default_scene {
        Some(SceneSource::Default)
    } else if scenes.scene_count > 0 {
        Some(SceneSource::First)
    } else {
        None
    }
}

/// Progress of the map model: whether its scene was spawned or the fallback
/// ground was revealed. At most one of the two ever happens.
#[derive(Clone, Copy, Debug, PartialEq, Eq, Structural)]
pub struct MapAsset {
    scene_spawned: bool,
    fallback_shown: bool,
}

/// The state and action after one frame of map loading.
pub open spec fn map_transition(
    scene_spawned: bool,
    fallback_shown: bool,
    status: LoadStatus,
    gltf: Option<GltfScenes>,
) -> (bool, bool, MapAction) {
    if scene_spawned || fallback_shown {
        (scene_spawned, fallback_shown, MapAction::Wait)
    } else {
        match status {
            LoadStatus::Loaded => match gltf {
                None => (false, false, MapAction::Wait),
                Some(scenes) => match scene_choice(scenes) {
                    Some(source) => (true, false, MapAction::SpawnScene(source)),
                    None => (false, true, MapAction::ShowFallback(FallbackReason::NoScene)),
                },
            },
            LoadStatus::Failed => (false, true, MapAction::ShowFallback(FallbackReason::LoadFailed)),
            _ => (false, false, MapAction::Wait),
        }
    }
}

impl MapAsset {
    /// Whether the map is settled: neither spawned twice nor both spawned and
    /// replaced by the fallback.
    pub open spec fn wf(&self) -> bool {
        !(self.spec_scene_spawned() && self.spec_fallback_shown())
    }

    /// Whether the map's scene has been spawned.
    pub closed spec fn spec_scene_spawned(&self) -> bool {
        self.scene_spawned
    }

    /// Whether the fallback ground has been revealed.
    pub closed spec fn spec_fallback_shown(&self) -> bool {
        self.fallback_shown
    }

    /// A map that has started loading and shows nothing yet.
    pub fn new() -> (map: MapAsset)
        ensures
            map.wf(),
            !map.spec_scene_spawned(),
            !map.spec_fallback_shown(),
    {
        MapAsset { scene_spawned: false, fallback_shown: false }
    }

    pub fn scene_spawned(&self) -> (b: bool)
        ensures
            b == self.spec_scene_spawned(),
    {
        self.scene_spawned
    }

    pub fn fallback_shown(&self) -> (b: bool)
        ensures
            b == self.spec_fallback_shown(),
    {
        self.fallback_shown
    }

    /// One frame of map loading: given the load status of the map file and,
    /// once it is available, the scenes of the loaded glTF, decides whether to
    /// spawn a scene, reveal the fallback ground, or wait.
    pub fn step(&mut self, status: LoadStatus, gltf: Option<GltfScenes>) -> (action: MapAction)
        ensures
            ({
                let (spawned, shown, act) = map_transition(
                    old(self).spec_scene_spawned(),
                    old(self).spec_fallback_shown(),
                    status,
                    gltf,
                );
                &&& final(self).spec_scene_spawned() == spawned
                &&& final(self).spec_fallback_shown() == shown
                &&& action == act
            }),
            old(self).wf() ==> final(self).wf(),
    {
        if self.scene_spawned || self.fallback_shown {
            return MapAction::Wait;
        }
        match status {
            LoadStatus::Loaded => match gltf {
                None => MapAction::Wait,
                Some(scenes) => match choose_scene(scenes) {
                    Some(source) => {
                        self.scene_spawned = true;
                        MapAction::SpawnScene(source)
                    },
                    None => {
                        self.fallback_shown = true;
                        MapAction::ShowFallback(FallbackReason::NoScene)
                    },
                },
            },
            LoadStatus::Failed => {
                self.fallback_shown = true;
                MapAction::ShowFallback(FallbackReason::LoadFailed)
            },
            _ => MapAction::Wait,
        }
    }
}

/// Visibility of the two car models: the loaded glTF model and the built-in
/// box model that stands in for it.
#[derive(Clone, Copy, Debug, PartialEq, Eq, Structural)]
pub struct CarModelVisibility {
    pub glb: Visibility,
    pub fallback: Visibility,
}

/// The car model visibility after one frame with the given load status.
pub open spec fn car_transition(v: CarModelVisibility, status: LoadStatus) -> CarModelVisibility {
    if status == LoadStatus::Failed {
        CarModelVisibility { glb: Visibility::Hidden, fallback: Visibility::Visible }
    } else {
        v
    }
}

/// The car model visibility after a run of frames.
pub open spec fn car_run(v: CarModelVisibility, statuses: Seq<LoadStatus>) -> CarModelVisibility
    decreases statuses.len(),
{
    if statuses.len() == 0 {
        v
    } else {
        car_run(car_transition(v, statuses[0]), statuses.drop_first())
    }
}

impl CarModelVisibility {
    /// Whether at least one of the two models is drawn.
    pub open spec fn shows_a_car(&self) -> bool {
        self.glb != Visibility::Hidden || self.fallback != Visibility::Hidden
    }

    /// At spawn the glTF model inherits its parent's visibility and the box
    /// model is hidden.
    pub fn new() -> (v: CarModelVisibility)
        ensures
            v.glb == Visibility::Inherited,
            v.fallback == Visibility::Hidden,
    {
        CarModelVisibility { glb: Visibility::Inherited, fallback: Visibility::Hidden }
    }

    /// One frame of the car model fallback: when the glTF model failed to
    /// load it is hidden and the box model shown; otherwise nothing changes.
    pub fn step(&mut self, status: LoadStatus)
        ensures
            *final(self) == car_transition(*old(self), status),
    {
        if status == LoadStatus::Failed {
            self.glb = Visibility::Hidden;
            self.fallback = Visibility::Visible;
        }
    }
}

/// A car is drawn in every frame: the freshly spawned car shows its glTF
/// model, and no sequence of load statuses ever hides both models.
pub proof fn lemma_car_always_shown(v: CarModelVisibility, statuses: Seq<LoadStatus>)
    requires
        v.shows_a_car(),
    ensures
        car_run(v, statuses).shows_a_car(),
    decreases statuses.len(),
{
    if statuses.len() > 0 {
        lemma_car_always_shown(car_transition(v, statuses[0]), statuses.drop_first());
    }
}

/// Once the glTF car model has failed to load, the box model is shown in
/// its place for good, whatever load statuses follow.
pub proof fn lemma_car_fallback_sticks(v: CarModelVisibility, statuses: Seq<LoadStatus>)
    requires
        statuses.contains(LoadStatus::Failed),
    ensures
        car_run(v, statuses) == (CarModelVisibility {
            glb: Visibility::Hidden,
            fallback: Visibility::Visible,
        }),
    decreases statuses.len(),
{
    let shown = CarModelVisibility { glb: Visibility::Hidden, fallback: Visibility::Visible };
    if statuses[0] == LoadStatus::Failed {
        lemma_car_run_keeps_fallback(statuses.drop_first());
    } else {
        let i = choose|i: int| 0 <= i < statuses.len() && statuses[i] == LoadStatus::Failed;
        assert(statuses.drop_first()[i - 1] == LoadStatus::Failed);
        lemma_car_fallback_sticks(car_transition(v, statuses[0]), statuses.drop_first());
    }
}

proof fn lemma_car_run_keeps_fallback(statuses: Seq<LoadStatus>)
    ensures
        car_run(
            CarModelVisibility { glb: Visibility::Hidden, fallback: Visibility::Visible },
            statuses,
        ) == (CarModelVisibility { glb: Visibility::Hidden, fallback: Visibility::Visible }),
    decreases statuses.len(),
{
    if statuses.len() > 0 {
        lemma_car_run_keeps_fallback(statuses.drop_first());
    }
}

/// The map's state and actions over a run of frames, each frame given by
/// the load status and, when available, the scenes of the loaded file.
pub open spec fn map_run(
    scene_spawned: bool,
    fallback_shown: bool,
    frames: Seq<(LoadStatus, Option<GltfScenes>)>,
) -> (bool, bool, Seq<MapAction>)
    decreases frames.len(),
{
    if frames.len() == 0 {
        (scene_spawned, fallback_shown, Seq::empty())
    } else {
        let (s1, f1, a) = map_transition(scene_spawned, fallback_shown, frames[0].0, frames[0].1);
        let (s2, f2, rest) = map_run(s1, f1, frames.drop_first());
        (s2, f2, seq![a] + rest)
    }
}

/// How many of the actions do something (are not `Wait`).
pub open spec fn count_acting(actions: Seq<MapAction>) -> nat
    decreases actions.len(),
{
    if actions.len() == 0 {
        0
    } else {
        (if actions[0] == MapAction::Wait {
            0nat
        } else {
            1nat
        }) + count_acting(actions.drop_first())
    }
}

/// Over any run of frames the map acts at most once: it either spawns its
/// scene or reveals the fallback ground, never both and never twice; once
/// it has acted nothing changes any more, and it has acted exactly when it
/// ends up settled.
pub proof fn lemma_map_acts_at_most_once(
    scene_spawned: bool,
    fallback_shown: bool,
    frames: Seq<(LoadStatus, Option<GltfScenes>)>,
)
    requires
        !(scene_spawned && fallback_shown),
    ensures
        ({
            let (s, f, acts) = map_run(scene_spawned, fallback_shown, frames);
            &&& !(s && f)
            &&& acts.len() == frames.len()
            &&& count_acting(acts) <= 1
            &&& (scene_spawned || fallback_shown) ==> count_acting(acts) == 0 && s == scene_spawned
                && f == fallback_shown
            &&& !(scene_spawned || fallback_shown) ==> (count_acting(acts) == 1 <==> (s || f))
        }),
    decreases frames.len(),
{
    if frames.len() > 0 {
        let (s1, f1, a) = map_transition(scene_spawned, fallback_shown, frames[0].0, frames[0].1);
        lemma_map_acts_at_most_once(s1, f1, frames.drop_first());
        let (s2, f2, rest) = map_run(s1, f1, frames.drop_first());
        let acts = seq![a] + rest;
        assert(acts.drop_first() =~= rest);
        assert(acts[0] == a);
    }
}

/// The screen is never left without ground once the map file is resolved:
/// from a map that has not acted yet, a failed load reveals the fallback
/// ground, and a loaded file spawns its default scene, else its first, else
/// reveals the fallback ground.
pub proof fn lemma_map_resolves(status: LoadStatus, scenes: GltfScenes)
    ensures
        status == LoadStatus::Failed ==> map_transition(false, false, status, None) == (
            false,
            true,
            MapAction::ShowFallback(FallbackReason::LoadFailed),
        ),
        status == LoadStatus::Loaded && scenes.has_default_scene ==> map_transition(
            false,
            false,
            status,
            Some(scenes),
        ) == (true, false, MapAction::SpawnScene(SceneSource::Default)),
        status == LoadStatus::Loaded && !scenes.has_default_scene && scenes.scene_count > 0
            ==> map_transition(false, false, status, Some(scenes)) == (
            true,
            false,
            MapAction::SpawnScene(SceneSource::First),
        ),
        status == LoadStatus::Loaded && !scenes.has_default_scene && scenes.scene_count == 0
            ==> map_transition(false, false, status, Some(scenes)) == (
            false,
            true,
            MapAction::ShowFallback(FallbackReason::NoScene),
        ),
{
}

/// Only a failed load swaps the car models: it hides the glTF model and
/// shows the box model; every other load status leaves both as they are.
pub proof fn lemma_car_swaps_only_on_failure(v: CarModelVisibility, status: LoadStatus)
    ensures
        status != LoadStatus::Failed ==> car_transition(v, status) == v,
        status == LoadStatus::Failed ==> car_transition(v, status).glb == Visibility::Hidden
            && car_transition(v, status).fallback == Visibility::Visible,
{
}

/// The scene spawned from a glTF file is its default scene when it has one,
/// else its first scene when it has any, and none when it has no scenes.
pub proof fn lemma_scene_choice(scenes: GltfScenes)
    ensures
        scenes.has_default_scene ==> scene_choice(scenes) == Some(SceneSource::Default),
        !scenes.has_default_scene && scenes.scene_count > 0 ==> scene_choice(scenes) == Some(
            SceneSource::First,
        ),
        !scenes.has_default_scene && scenes.scene_count == 0 ==> scene_choice(scenes) == None::<
            SceneSource,
        >,
{
}

/// The map's frame decision in full: a map that has acted keeps its state
/// and waits; otherwise a failed load reveals the fallback ground whatever
/// else is known, a load still pending (or loaded before its glTF data is
/// available) waits without change, and a loaded file spawns its default
/// scene, else its first, else reveals the fallback ground.
pub proof fn lemma_map_frame(
    scene_spawned: bool,
    fallback_shown: bool,
    status: LoadStatus,
    gltf: Option<GltfScenes>,
)
    ensures
        scene_spawned || fallback_shown ==> map_transition(
            scene_spawned,
            fallback_shown,
            status,
            gltf,
        ) == (scene_spawned, fallback_shown, MapAction::Wait),
        !scene_spawned && !fallback_shown && status == LoadStatus::Failed ==> map_transition(
            scene_spawned,
            fallback_shown,
            status,
            gltf,
        ) == (false, true, MapAction::ShowFallback(FallbackReason::LoadFailed)),
        !scene_spawned && !fallback_shown && (status == LoadStatus::NotLoaded || status
            == LoadStatus::Loading || (status == LoadStatus::Loaded && gltf is None))
            ==> map_transition(scene_spawned, fallback_shown, status, gltf) == (
            false,
            false,
            MapAction::Wait,
        ),
        !scene_spawned && !fallback_shown && status == LoadStatus::Loaded && gltf is Some
            ==> map_transition(scene_spawned, fallback_shown, status, gltf) == if gltf->0.has_default_scene {
            (true, false, MapAction::SpawnScene(SceneSource::Default))
        } else if gltf->0.scene_count > 0 {
            (true, false, MapAction::SpawnScene(SceneSource::First))
        } else {
            (false, true, MapAction::ShowFallback(FallbackReason::NoScene))
        },
{
}

} // verus!
