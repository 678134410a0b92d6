use vstd::prelude::*;
use crate::camera::{CameraView, GameCamera, DEFAULT_DISTANCE, DEFAULT_PITCH};
use crate::classify::{classify, classify_of, GoalDirection, LevelObjectType};
use crate::camera::{pinch_view, rotate_view, yaw_has_room};
use crate::drag::{started_session, tracked_session, AimCircle, DragInfo};
use crate::geometry::{dist_sq, Vec2i, Vec3i};
use crate::gestures::{pinch_gesture, rotate_gesture, CameraGestures};
use crate::inputs::InputAggregator;
use crate::launch::{arrow_after, dir_of, fire_player, ArrowScene, Impulse, Ray, IMPULSE_SCALE};
use crate::power::{reach_of, FULL_POWER};

verus! {

/// The radius of the player's ball, in millimetres; it spawns this far above
/// the spawn point.
pub const PLAYER_RADIUS: i32 = 200;

#[derive(Clone, Copy, Debug, PartialEq, Eq, Structural)]
pub enum GameLevel {
    Demo,
}

/// What a level starts with.
#[derive(Clone, Copy, Debug, PartialEq, Eq, Structural)]
pub struct GameLevelMeta {
    /// Shots at the start of the level.
    pub shots: u32,
    /// Points needed for the first, second and third star.
    pub star_point_thresholds: StarThresholds,
}

#[derive(Clone, Copy, Debug, PartialEq, Eq, Structural)]
pub struct StarThresholds {
    pub first: u32,
    pub second: u32,
    pub third: u32,
}

pub open spec fn level_meta(level: GameLevel) -> GameLevelMeta {
    match level {
        GameLevel::Demo => GameLevelMeta {
            shots: 3,
            star_point_thresholds: StarThresholds { first: 25, second: 50, third: 75 },
        },
    }
}

impl GameLevel {
    pub fn get_meta(&self) -> (r: GameLevelMeta)
        ensures
            r == level_meta(*self),
    {
        match self {
            GameLevel::Demo => GameLevelMeta {
                shots: 3,
                star_point_thresholds: StarThresholds { first: 25, second: 50, third: 75 },
            },
        }
    }
}

/// How many stars `points` earn: one for each threshold reached.
pub open spec fn stars_of(points: int, t: StarThresholds) -> int {
    if points < t.first {
        0
    } else if points < t.second {
        1
    } else if points < t.third {
        2
    } else {
        3
    }
}

pub fn star_count(points: i32, t: StarThresholds) -> (r: u32)
    ensures
        r == stars_of(points as int, t),
{
    if (points as i64) < t.first as i64 {
        0
    } else if (points as i64) < t.second as i64 {
        1
    } else if (points as i64) < t.third as i64 {
        2
    } else {
        3
    }
}

/// Where the level's life cycle stands.
#[derive(Clone, Copy, Debug, PartialEq, Eq, Structural)]
pub enum GameState {
    /// No level is loaded.
    Loading,
    Playing,
    Paused,
    /// Won or lost; only a reload leaves this state.
    Finished,
}

/// The runtime state of the level being played.
#[derive(Clone, Copy, Debug, PartialEq, Eq, Structural)]
pub struct GameData {
    pub level: Option<GameLevel>,
    pub shots: u32,
    pub points: i32,
    /// `Some(true)` once won, `Some(false)` once lost.
    pub result: Option<bool>,
}

impl GameData {
    /// The state a level starts in: its shots, no points, no outcome.
    pub fn from_level(level: Option<GameLevel>) -> (r: GameData)
        ensures
            r.level == level,
            r.shots == (match level {
                Some(l) => level_meta(l).shots,
                None => 0,
            }),
            r.points == 0,
            r.result is None,
    {
        match level {
            Some(l) => GameData { level: Some(l), shots: l.get_meta().shots, points: 0, result: None },
            None => GameData { level: None, shots: 0, points: 0, result: None },
        }
    }
}

/// A named node of the level's scene, as the scene file gives it.
#[derive(Clone, Debug)]
pub struct SceneNode {
    pub name: String,
    pub position: Vec3i,
}

/// A node of the loaded level with what its name makes of it. A pickup that
/// was collected is gone for good.
#[derive(Clone, Copy, Debug, PartialEq, Eq, Structural)]
pub struct PlacedObject {
    pub kind: Option<LevelObjectType>,
    pub position: Vec3i,
    pub collected: bool,
}

/// The objects of a freshly loaded level, one per scene node, in order.
pub open spec fn placed_from(nodes: Seq<SceneNode>, objects: Seq<PlacedObject>) -> bool {
    &&& objects.len() == nodes.len()
    &&& forall|i: int|
        0 <= i < nodes.len() ==> #[trigger] objects[i] == (PlacedObject {
            kind: classify_of(nodes[i].name@),
            position: nodes[i].position,
            collected: false,
        })
}

/// Classifies every node of a scene.
pub fn place_objects(nodes: &Vec<SceneNode>) -> (r: Vec<PlacedObject>)
    ensures
        placed_from(nodes@, r@),
{
    let mut r: Vec<PlacedObject> = Vec::new();
    let mut i: usize = 0;
    while i < nodes.len()
        invariant
            0 <= i <= nodes@.len(),
            r@.len() == i,
            forall|k: int|
                0 <= k < i ==> #[trigger] r@[k] == (PlacedObject {
                    kind: classify_of(nodes@[k].name@),
                    position: nodes@[k].position,
                    collected: false,
                }),
        decreases nodes@.len() - i,
    {
        let node = &nodes[i];
        let kind = classify(node.name.as_str());
        r.push(PlacedObject { kind, position: node.position, collected: false });
        i += 1;
    }
    r
}

/// The first spawn point among `objects`, if any.
pub open spec fn first_spawn(objects: Seq<PlacedObject>) -> Option<int>
    decreases objects.len(),
{
    if objects.len() == 0 {
        None
    } else {
        match first_spawn(objects.drop_last()) {
            Some(i) => Some(i),
            None => if objects.last().kind == Some(LevelObjectType::SpawnPoint) {
                Some(objects.len() - 1)
            } else {
                None
            },
        }
    }
}

/// Where the player starts: resting on the first spawn point. None when the
/// level has no spawn point, or it lies too high to rest on.
pub fn spawn_position(objects: &Vec<PlacedObject>) -> (r: Option<Vec3i>)
    ensures
        match first_spawn(objects@) {
            Some(i) => {
                let p = objects@[i].position;
                if p.z + PLAYER_RADIUS <= i32::MAX {
                    r == Some(Vec3i { x: p.x, y: p.y, z: (p.z + PLAYER_RADIUS) as i32 })
                } else {
                    r is None
                }
            },
            None => r is None,
        },
{
    let mut i: usize = 0;
    while i < objects.len()
        invariant
            0 <= i <= objects@.len(),
            first_spawn(objects@.subrange(0, i as int)) is None,
        decreases objects@.len() - i,
    {
        assert(objects@.subrange(0, i + 1).drop_last() =~= objects@.subrange(0, i as int));
        if objects[i].kind == Some(LevelObjectType::SpawnPoint) {
            proof {
                lemma_first_spawn_prefix(objects@, i as int + 1);
            }
            let p = objects[i].position;
            if p.z > i32::MAX - PLAYER_RADIUS {
                return None;
            }
            return Some(Vec3i { x: p.x, y: p.y, z: p.z + PLAYER_RADIUS });
        }
        i += 1;
    }
    assert(objects@.subrange(0, i as int) =~= objects@);
    None
}

/// A spawn point found in a prefix is the first one of the whole.
proof fn lemma_first_spawn_prefix(objects: Seq<PlacedObject>, n: int)
    requires
        0 <= n <= objects.len(),
        first_spawn(objects.subrange(0, n)) is Some,
    ensures
        first_spawn(objects) == first_spawn(objects.subrange(0, n)),
    decreases objects.len() - n,
{
    if n < objects.len() {
        assert(objects.subrange(0, n + 1).drop_last() =~= objects.subrange(0, n));
        lemma_first_spawn_prefix(objects, n + 1);
    } else {
        assert(objects.subrange(0, n) =~= objects);
    }
}

/// `h` names an uncollected pickup; its reward.
pub open spec fn pickup_reward(objects: Seq<PlacedObject>, h: int) -> Option<i32> {
    if 0 <= h < objects.len() && !objects[h].collected {
        match objects[h].kind {
            Some(LevelObjectType::PointPickup { reward }) => Some(reward),
            _ => None,
        }
    } else {
        None
    }
}

/// `v`, held within the range of `i32`.
pub open spec fn sat_i32(v: int) -> int {
    if v < i32::MIN { i32::MIN as int } else if v > i32::MAX { i32::MAX as int } else { v }
}

/// Touching handle `h`: an uncollected pickup is collected and its reward added.
pub open spec fn pickup_step(objects: Seq<PlacedObject>, points: int, h: int) -> (Seq<PlacedObject>, int) {
    match pickup_reward(objects, h) {
        Some(reward) => (objects.update(h, PlacedObject { collected: true, ..objects[h] }), sat_i32(points + reward)),
        None => (objects, points),
    }
}

/// Touching the handles `hs`, in order.
pub open spec fn pickups_after(objects: Seq<PlacedObject>, points: int, hs: Seq<usize>) -> (Seq<PlacedObject>, int)
    decreases hs.len(),
{
    if hs.len() == 0 {
        (objects, points)
    } else {
        let (o, p) = pickups_after(objects, points, hs.drop_last());
        pickup_step(o, p, hs.last() as int)
    }
}

pub open spec fn is_goal(objects: Seq<PlacedObject>, h: int) -> bool {
    0 <= h < objects.len() && objects[h].kind matches Some(LevelObjectType::Goal(_))
}

/// The last goal among the handles `hs`.
pub open spec fn last_goal(objects: Seq<PlacedObject>, hs: Seq<usize>) -> Option<usize>
    decreases hs.len(),
{
    if hs.len() == 0 {
        None
    } else if is_goal(objects, hs.last() as int) {
        Some(hs.last())
    } else {
        last_goal(objects, hs.drop_last())
    }
}

/// A move of `(mx, my)` crosses a goal facing `d` the right way: it is not
/// nil and goes against the direction on neither axis.
pub open spec fn crosses(mx: int, my: int, d: GoalDirection) -> bool {
    (mx != 0 || my != 0) && mx * d.vector().0 >= 0 && my * d.vector().1 >= 0
}

pub open spec fn goal_direction_at(objects: Seq<PlacedObject>, h: int) -> GoalDirection {
    match objects[h].kind {
        Some(LevelObjectType::Goal(d)) => d,
        _ => GoalDirection::XPlus,
    }
}

/// One level being played, with everything that a reload resets.
#[derive(Clone, Debug)]
pub struct GameSession {
    pub data: GameData,
    pub state: GameState,
    pub objects: Vec<PlacedObject>,
    /// The player has been seen inside the out-of-bounds volume.
    pub bounds_started: bool,
    /// The goal the player was last seen inside.
    pub goal_started: Option<usize>,
    pub camera: GameCamera,
    pub drag: DragInfo,
    pub gestures: CameraGestures,
    pub arrow: ArrowScene,
}

/// What the engine reports for the aiming part of a tick: the player's point
/// on the screen, the viewport height in pixels, the player's place in the
/// world, and the camera ray through the drag point.
#[derive(Clone, Copy, Debug, PartialEq, Eq, Structural)]
pub struct AimFrame {
    pub player_screen: Vec2i,
    pub height: u32,
    pub player: Vec3i,
    pub ray: Ray,
}

/// The camera at its starting place.
pub open spec fn default_camera() -> CameraView {
    CameraView { distance: DEFAULT_DISTANCE as int, yaw: 0, pitch: DEFAULT_PITCH as int }
}

impl GameSession {
    /// The camera and gestures are well formed, the arrow's power is a
    /// fraction, and an outcome is recorded exactly when the level is
    /// finished.
    pub open spec fn wf(&self) -> bool {
        &&& self.camera.wf()
        &&& self.gestures.wf()
        &&& self.arrow.power <= FULL_POWER
        &&& (self.data.result is Some <==> self.state == GameState::Finished)
    }

    /// `b` keeps `a`'s level, camera, drag, gestures and arrow.
    pub open spec fn same_setting(a: GameSession, b: GameSession) -> bool {
        &&& b.data.level == a.data.level
        &&& b.camera == a.camera
        &&& b.drag == a.drag
        &&& b.gestures == a.gestures
        &&& b.arrow == a.arrow
    }

    /// Everything that holds right after a (re)load of `level` from `nodes`.
    pub open spec fn fresh(&self, level: Option<GameLevel>, nodes: Seq<SceneNode>) -> bool {
        &&& self.wf()
        &&& self.data.level == level
        &&& self.data.shots == (match level {
            Some(l) => level_meta(l).shots,
            None => 0,
        })
        &&& self.data.points == 0
        &&& self.data.result is None
        &&& self.state == (if level is Some { GameState::Playing } else { GameState::Loading })
        &&& placed_from(nodes, self.objects@)
        &&& !self.bounds_started
        &&& self.goal_started is None
        &&& self.camera@ == default_camera()
        &&& self.drag.0 is None
        &&& self.gestures.rotate is None
        &&& self.gestures.pinch is None
        &&& self.arrow.power == 0
        &&& self.arrow.direction is None
    }

    /// A session with `level` loaded from the scene `nodes`.
    pub fn load(level: Option<GameLevel>, nodes: &Vec<SceneNode>) -> (r: GameSession)
        ensures
            r.fresh(level, nodes@),
    {
        GameSession {
            data: GameData::from_level(level),
            state: if level.is_some() { GameState::Playing } else { GameState::Loading },
            objects: place_objects(nodes),
            bounds_started: false,
            goal_started: None,
            camera: GameCamera::default(),
            drag: DragInfo::new(),
            gestures: CameraGestures::new(),
            arrow: ArrowScene::new(),
        }
    }

    /// Loads `level` afresh from `nodes`: new objects, its shots back, no
    /// points, no outcome, camera and drag reset.
    pub fn set_game_scene(&mut self, level: Option<GameLevel>, nodes: &Vec<SceneNode>)
        ensures
            final(self).fresh(level, nodes@),
    {
        *self = GameSession::load(level, nodes);
    }

    /// Restarts the current level from `nodes`.
    pub fn reload(&mut self, nodes: &Vec<SceneNode>)
        ensures
            final(self).fresh(old(self).data.level, nodes@),
    {
        let level = self.data.level;
        self.set_game_scene(level, nodes);
    }

    /// Pausing only stops a level in play.
    pub fn pause(&mut self)
        ensures
            *final(self) == (GameSession {
                state: if old(self).state == GameState::Playing { GameState::Paused } else { old(self).state },
                ..*old(self)
            }),
            final(self).wf() == old(self).wf(),
    {
        if self.state == GameState::Playing {
            self.state = GameState::Paused;
        }
    }

    /// Resuming only restarts a paused level.
    pub fn resume(&mut self)
        ensures
            *final(self) == (GameSession {
                state: if old(self).state == GameState::Paused { GameState::Playing } else { old(self).state },
                ..*old(self)
            }),
            final(self).wf() == old(self).wf(),
    {
        if self.state == GameState::Paused {
            self.state = GameState::Playing;
        }
    }

    /// The input part of a tick, in order: a press in the aim circle may open
    /// a drag; the drag follows the input (a second held input cancels it);
    /// then the rotate and pinch gestures run, abandoned while a drag is open.
    /// Only a level in play takes input.
    pub fn input_tick(&mut self, agg: &InputAggregator, circle: AimCircle)
        requires
            agg.wf(),
            old(self).wf(),
            yaw_has_room(old(self).camera@),
        ensures
            final(self).wf(),
            old(self).state != GameState::Playing ==> *final(self) == *old(self),
            old(self).state == GameState::Playing ==> {
                let jp = agg.inputs.just_pressed_order();
                let opened = started_session(old(self).drag.0, jp, agg@.positions, circle, old(self).data.shots);
                let session = tracked_session(opened, agg@);
                let (rotate, turn) = rotate_gesture(old(self).gestures.rotate, agg@, jp, session is Some);
                let (pinch, change) = pinch_gesture(
                    old(self).gestures.pinch,
                    agg@,
                    agg.inputs.pressed_order(),
                    session is Some,
                );
                let turned = match turn {
                    Some((dx, dy)) => rotate_view(old(self).camera@, dx, dy),
                    None => old(self).camera@,
                };
                &&& final(self).drag.0 == session
                &&& final(self).gestures.rotate == rotate
                &&& final(self).gestures.pinch == pinch
                &&& final(self).camera@ == match change {
                    Some(d) => pinch_view(turned, d),
                    None => turned,
                }
                &&& final(self).data == old(self).data
                &&& final(self).state == old(self).state
                &&& final(self).objects@ == old(self).objects@
                &&& final(self).arrow == old(self).arrow
                &&& final(self).bounds_started == old(self).bounds_started
                &&& final(self).goal_started == old(self).goal_started
            },
    {
        if self.state != GameState::Playing {
            return;
        }
        self.drag.start_aim(agg, circle, self.data.shots);
        self.drag.update(agg);
        let dragging = self.drag.0.is_some();
        self.gestures.rotate_step(&mut self.camera, agg, dragging);
        self.gestures.pinch_step(&mut self.camera, agg, dragging);
    }

    /// The aiming part of a tick, after the input part: the arrow follows the
    /// drag, then a confirmed drag is resolved into a launch (with the
    /// arrow's power) and closed. Only a level in play launches.
    pub fn aim_tick(&mut self, frame: AimFrame) -> (r: Option<Impulse>)
        requires
            frame.height > 0,
            old(self).wf(),
        ensures
            old(self).state != GameState::Playing ==> *final(self) == *old(self) && r is None,
            old(self).state == GameState::Playing ==> {
                let arrow = arrow_after(
                    old(self).drag.0,
                    frame.player_screen,
                    frame.height,
                    frame.player,
                    frame.ray,
                );
                &&& final(self).arrow == arrow
                &&& match old(self).drag.0 {
                    Some(d) if d.confirmed => {
                        let owed = d.confirmed && arrow.power > 0 && dir_of(frame.player, frame.ray) is Some
                            && old(self).data.shots > 0;
                        &&& final(self).drag.0 is None
                        &&& owed == r is Some
                        &&& final(self).data.shots == if owed { (old(self).data.shots - 1) as u32 } else { old(self).data.shots }
                        &&& (r matches Some(i) ==> dir_of(frame.player, frame.ray) == Some(i.direction)
                            && i.magnitude_milli == arrow.power * IMPULSE_SCALE)
                    },
                    _ => final(self).drag == old(self).drag && final(self).data.shots == old(self).data.shots && r is None,
                }
                &&& final(self).data.level == old(self).data.level
                &&& final(self).data.points == old(self).data.points
                &&& final(self).data.result == old(self).data.result
                &&& final(self).state == old(self).state
                &&& final(self).camera == old(self).camera
                &&& final(self).gestures == old(self).gestures
                &&& final(self).objects@ == old(self).objects@
                &&& final(self).bounds_started == old(self).bounds_started
                &&& final(self).goal_started == old(self).goal_started
            },
            final(self).wf(),
    {
        if self.state != GameState::Playing {
            return None;
        }
        let drag = self.drag.0;
        self.arrow.update(drag, frame.player_screen, frame.height, frame.player, frame.ray);
        proof {
            if let Some(d) = drag {
                crate::power::lemma_power_bounds(
                    reach_of(dist_sq(frame.player_screen, d.point) as nat, frame.height as nat),
                );
            }
        }
        fire_player(&mut self.drag, self.arrow.power, frame.player, frame.ray, &mut self.data.shots)
    }

    /// Awards the pickups that the player touches this tick (`touching`
    /// holds object handles, in any order, repeats allowed). Each pickup
    /// counts once and is gone afterwards. Only a level in play scores.
    pub fn reward_points_on_collision(&mut self, touching: &Vec<usize>)
        requires
            old(self).wf(),
        ensures
            old(self).state != GameState::Playing ==> *final(self) == *old(self),
            old(self).state == GameState::Playing ==> {
                let (o, p) = pickups_after(old(self).objects@, old(self).data.points as int, touching@);
                &&& final(self).objects@ == o
                &&& final(self).data.points == p
                &&& final(self).data.shots == old(self).data.shots
                &&& final(self).data.result == old(self).data.result
                &&& final(self).state == old(self).state
                &&& final(self).bounds_started == old(self).bounds_started
                &&& final(self).goal_started == old(self).goal_started
                &&& GameSession::same_setting(*old(self), *final(self))
            },
            final(self).wf(),
    {
        if self.state != GameState::Playing {
            return;
        }
        let ghost start_objects = self.objects@;
        let ghost start_points = self.data.points as int;
        let mut i: usize = 0;
        while i < touching.len()
            invariant
                0 <= i <= touching@.len(),
                self.state == old(self).state,
                self.data.shots == old(self).data.shots,
                self.data.result == old(self).data.result,
                self.camera == old(self).camera,
                self.gestures == old(self).gestures,
                self.arrow == old(self).arrow,
                self.drag == old(self).drag,
                self.data.level == old(self).data.level,
                self.bounds_started == old(self).bounds_started,
                self.goal_started == old(self).goal_started,
                start_objects == old(self).objects@,
                start_points == old(self).data.points as int,
                (self.objects@, self.data.points as int) == pickups_after(
                    start_objects,
                    start_points,
                    touching@.subrange(0, i as int),
                ),
            decreases touching@.len() - i,
        {
            let h = touching[i];
            assert(touching@.subrange(0, i + 1).drop_last() =~= touching@.subrange(0, i as int));
            if h < self.objects.len() && !self.objects[h].collected {
                if let Some(LevelObjectType::PointPickup { reward }) = self.objects[h].kind {
                    let sum: i64 = self.data.points as i64 + reward as i64;
                    self.data.points = if sum < i32::MIN as i64 {
                        i32::MIN
                    } else if sum > i32::MAX as i64 {
                        i32::MAX
                    } else {
                        sum as i32
                    };
                    let o = self.objects[h];
                    self.objects.set(h, PlacedObject { collected: true, ..o });
                }
            }
            i += 1;
        }
        assert(touching@.subrange(0, touching@.len() as int) =~= touching@);
    }

    /// Loses the level when the player leaves the out-of-bounds volume after
    /// having been seen inside it. Only a level in play can be lost.
    pub fn lose_on_pass_through_bounds(&mut self, intersecting: bool)
        requires
            old(self).wf(),
        ensures
            old(self).state != GameState::Playing ==> *final(self) == *old(self),
            old(self).state == GameState::Playing ==> {
                &&& final(self).bounds_started == intersecting
                &&& if old(self).bounds_started && !intersecting {
                    &&& final(self).data.result == Some(false)
                    &&& final(self).state == GameState::Finished
                } else {
                    &&& final(self).data.result == old(self).data.result
                    &&& final(self).state == old(self).state
                }
                &&& final(self).data.points == old(self).data.points
                &&& final(self).data.shots == old(self).data.shots
                &&& final(self).objects@ == old(self).objects@
                &&& final(self).goal_started == old(self).goal_started
                &&& GameSession::same_setting(*old(self), *final(self))
            },
            final(self).wf(),
    {
        if self.state != GameState::Playing {
            return;
        }
        if self.bounds_started {
            if !intersecting {
                self.bounds_started = false;
                self.data.result = Some(false);
                self.state = GameState::Finished;
            }
        } else if intersecting {
            self.bounds_started = true;
        }
    }

    /// Wins the level when the player leaves a goal it was inside, moving the
    /// goal's way: the offset from the goal to the player (`player`, in world
    /// millimetres) must cross it (see `crosses`). `touching` holds the
    /// handles of what the player touches this tick; while it holds a goal,
    /// the last such goal is remembered and nothing is decided.
    pub fn win_on_pass_through_goal(&mut self, touching: &Vec<usize>, player: Vec3i)
        requires
            old(self).wf(),
        ensures
            old(self).state != GameState::Playing ==> *final(self) == *old(self),
            old(self).state == GameState::Playing ==> {
                let objs = old(self).objects@;
                &&& final(self).data.points == old(self).data.points
                &&& final(self).data.shots == old(self).data.shots
                &&& final(self).objects@ == objs
                &&& final(self).bounds_started == old(self).bounds_started
                &&& GameSession::same_setting(*old(self), *final(self))
                &&& match last_goal(objs, touching@) {
                    Some(g) => {
                        &&& final(self).goal_started == Some(g)
                        &&& final(self).data.result == old(self).data.result
                        &&& final(self).state == old(self).state
                    },
                    None => match old(self).goal_started {
                        Some(g) if is_goal(objs, g as int) => {
                            let won = crosses(
                                player.x - objs[g as int].position.x,
                                player.y - objs[g as int].position.y,
                                goal_direction_at(objs, g as int),
                            );
                            &&& final(self).goal_started is None
                            &&& final(self).data.result == if won { Some(true) } else { old(self).data.result }
                            &&& final(self).state == if won { GameState::Finished } else { old(self).state }
                        },
                        _ => {
                            &&& final(self).goal_started == old(self).goal_started
                            &&& final(self).data.result == old(self).data.result
                            &&& final(self).state == old(self).state
                        },
                    },
                }
            },
            final(self).wf(),
    {
        if self.state != GameState::Playing {
            return;
        }
        let mut found: Option<usize> = None;
        let mut i: usize = 0;
        while i < touching.len()
            invariant
                0 <= i <= touching@.len(),
                found == last_goal(self.objects@, touching@.subrange(0, i as int)),
                *self == *old(self),
            decreases touching@.len() - i,
        {
            let h = touching[i];
            assert(touching@.subrange(0, i + 1).drop_last() =~= touching@.subrange(0, i as int));
            if h < self.objects.len() {
                if let Some(LevelObjectType::Goal(_)) = self.objects[h].kind {
                    found = Some(h);
                }
            }
            i += 1;
        }
        assert(touching@.subrange(0, touching@.len() as int) =~= touching@);
        if found.is_some() {
            self.goal_started = found;
            return;
        }
        let g = match self.goal_started {
            Some(g) => g,
            None => {
                return;
            },
        };
        if g >= self.objects.len() {
            return;
        }
        let goal = self.objects[g];
        let d = match goal.kind {
            Some(LevelObjectType::Goal(d)) => d,
            _ => {
                return;
            },
        };
        let mx: i64 = player.x as i64 - goal.position.x as i64;
        let my: i64 = player.y as i64 - goal.position.y as i64;
        let along = match d {
            GoalDirection::XPlus => mx >= 0,
            GoalDirection::XMinus => mx <= 0,
            GoalDirection::YPlus => my >= 0,
            GoalDirection::YMinus => my <= 0,
        };
        let won = (mx != 0 || my != 0) && along;
        assert(won == crosses(mx as int, my as int, d)) by {
            let (vx, vy) = d.vector();
            assert(mx * vx >= 0 <==> (vx > 0 ==> mx >= 0) && (vx < 0 ==> mx <= 0)) by (nonlinear_arith)
                requires -1 <= vx <= 1;
            assert(my * vy >= 0 <==> (vy > 0 ==> my >= 0) && (vy < 0 ==> my <= 0)) by (nonlinear_arith)
                requires -1 <= vy <= 1;
        }
        if won {
            self.data.result = Some(true);
            self.state = GameState::Finished;
        }
        self.goal_started = None;
    }
}

} // verus!

verus! {

/// Touching a pickup a second time changes nothing.
pub proof fn lemma_pickup_step_idempotent(objects: Seq<PlacedObject>, points: int, h: int)
    ensures
        ({
            let (o, p) = pickup_step(objects, points, h);
            pickup_step(o, p, h) == (o, p)
        }),
{
}

/// However many times the touch of one pickup is reported, its reward is
/// added exactly once and the pickup is gone afterwards.
pub proof fn lemma_pickup_counts_once(objects: Seq<PlacedObject>, points: int, h: usize, hs: Seq<usize>, reward: i32)
    requires
        hs.len() >= 1,
        forall|i: int| 0 <= i < hs.len() ==> hs[i] == h,
        pickup_reward(objects, h as int) == Some(reward),
        i32::MIN <= points + reward <= i32::MAX,
    ensures
        pickups_after(objects, points, hs).1 == points + reward,
        pickups_after(objects, points, hs).0[h as int].collected,
        pickup_reward(pickups_after(objects, points, hs).0, h as int) is None,
    decreases hs.len(),
{
    if hs.len() == 1 {
        assert(hs.drop_last() =~= Seq::<usize>::empty());
    } else {
        lemma_pickup_counts_once(objects, points, h, hs.drop_last(), reward);
        let (o, p) = pickups_after(objects, points, hs.drop_last());
        assert(pickup_reward(o, h as int) is None);
        assert(hs.last() == h);
    }
}

/// Reports of a pickup that is already gone change nothing.
pub proof fn lemma_gone_pickup_reports_change_nothing(objects: Seq<PlacedObject>, points: int, h: usize, hs: Seq<usize>)
    requires
        forall|i: int| 0 <= i < hs.len() ==> hs[i] == h,
        pickup_reward(objects, h as int) is None,
    ensures
        pickups_after(objects, points, hs) == (objects, points),
    decreases hs.len(),
{
    if hs.len() > 0 {
        lemma_gone_pickup_reports_change_nothing(objects, points, h, hs.drop_last());
        assert(hs.last() == h);
    }
}

/// Over any number of ticks (here, a first tick that reports the pickup at
/// least once and a later tick that reports it any number of times), a
/// pickup's reward is added exactly once.
pub proof fn lemma_pickup_counts_once_over_ticks(
    objects: Seq<PlacedObject>,
    points: int,
    h: usize,
    first: Seq<usize>,
    later: Seq<usize>,
    reward: i32,
)
    requires
        first.len() >= 1,
        forall|i: int| 0 <= i < first.len() ==> first[i] == h,
        forall|i: int| 0 <= i < later.len() ==> later[i] == h,
        pickup_reward(objects, h as int) == Some(reward),
        i32::MIN <= points + reward <= i32::MAX,
    ensures
        ({
            let (o1, p1) = pickups_after(objects, points, first);
            let (o2, p2) = pickups_after(o1, p1, later);
            &&& p2 == points + reward
            &&& o2[h as int].collected
        }),
{
    lemma_pickup_counts_once(objects, points, h, first, reward);
    let (o1, p1) = pickups_after(objects, points, first);
    lemma_gone_pickup_reports_change_nothing(o1, p1, h, later);
}

} // verus!
