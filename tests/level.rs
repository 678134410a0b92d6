use small_3d_game::camera::GameCamera;
use small_3d_game::level::{place_objects, spawn_position};
use small_3d_game::drag::AimCircle;
use small_3d_game::geometry::Vec2i;
use small_3d_game::inputs::{InputAggregator, InputEvent};
use small_3d_game::launch::{Dir2, Ray};
use small_3d_game::level::AimFrame;
use small_3d_game::classify::LevelObjectType;
use small_3d_game::geometry::Vec3i;
use small_3d_game::level::{star_count, GameData, GameLevel, GameSession, GameState, SceneNode, StarThresholds};

fn node(name: &str, x: i32, y: i32) -> SceneNode {
    SceneNode { name: name.to_string(), position: Vec3i::new(x, y, 0) }
}

// handles: 0 Object, 1 Bounds, 2 Spawn, 3 Goal_X+, 4 Point_15, 5 Point_10, 6 Unknown
fn scene() -> Vec<SceneNode> {
    vec![
        node("Object.001", 0, 0),
        node("Bounds", 0, 0),
        node("Spawn", 0, 0),
        node("Goal_X+_gate", 5000, 0),
        node("Point_15.glb_mesh", 1000, 0),
        node("Point_10", 2000, 0),
        node("Unknown", 0, 0),
    ]
}

fn session() -> GameSession {
    GameSession::load(Some(GameLevel::Demo), &scene())
}

#[test]
fn load_classifies_and_sets_up_the_level() {
    let s = session();
    assert_eq!(s.state, GameState::Playing);
    assert_eq!(s.data, GameData { level: Some(GameLevel::Demo), shots: 3, points: 0, result: None });
    assert_eq!(s.objects.len(), 7);
    assert_eq!(s.objects[4].kind, Some(LevelObjectType::PointPickup { reward: 15 }));
    assert_eq!(s.objects[6].kind, None);
    assert_eq!(GameLevel::Demo.get_meta().shots, 3);
}

#[test]
fn win_through_goal_in_its_direction() {
    let mut s = session();
    s.win_on_pass_through_goal(&vec![3], Vec3i::new(4900, 0, 0));
    assert_eq!(s.goal_started, Some(3));
    assert_eq!(s.data.result, None);
    s.win_on_pass_through_goal(&vec![3], Vec3i::new(5000, 0, 0));
    s.win_on_pass_through_goal(&vec![], Vec3i::new(5300, 0, 0));
    assert_eq!(s.data.result, Some(true));
    assert_eq!(s.state, GameState::Finished);
}

#[test]
fn wrong_direction_crossing_does_not_win() {
    let mut s = session();
    s.win_on_pass_through_goal(&vec![3], Vec3i::new(5100, 0, 0));
    s.win_on_pass_through_goal(&vec![], Vec3i::new(4700, 0, 0));
    assert_eq!(s.data.result, None);
    assert_eq!(s.state, GameState::Playing);
    assert_eq!(s.goal_started, None);
}

#[test]
fn leaving_bounds_after_entering_loses() {
    let mut s = session();
    // not inside yet: nothing
    s.lose_on_pass_through_bounds(false);
    assert_eq!(s.data.result, None);
    s.lose_on_pass_through_bounds(true);
    assert!(s.bounds_started);
    s.lose_on_pass_through_bounds(true);
    assert_eq!(s.data.result, None);
    s.lose_on_pass_through_bounds(false);
    assert_eq!(s.data.result, Some(false));
    assert_eq!(s.state, GameState::Finished);
}

#[test]
fn pickup_counts_once() {
    let mut s = session();
    s.reward_points_on_collision(&vec![4, 4, 4]);
    assert_eq!(s.data.points, 15);
    s.reward_points_on_collision(&vec![4]);
    assert_eq!(s.data.points, 15);
    assert!(s.objects[4].collected);
    // handles that are no pickup, or out of range, are ignored
    s.reward_points_on_collision(&vec![0, 3, 99, 5]);
    assert_eq!(s.data.points, 25);
}

#[test]
fn finished_level_ignores_events_until_reload() {
    let mut s = session();
    s.lose_on_pass_through_bounds(true);
    s.lose_on_pass_through_bounds(false);
    assert_eq!(s.state, GameState::Finished);
    s.reward_points_on_collision(&vec![4]);
    assert_eq!(s.data.points, 0);
    s.pause();
    assert_eq!(s.state, GameState::Finished);

    s.reload(&scene());
    assert_eq!(s.state, GameState::Playing);
    assert_eq!(s.data.result, None);
    assert_eq!(s.data.shots, 3);
    assert!(!s.bounds_started);
}

#[test]
fn pause_and_resume() {
    let mut s = session();
    s.pause();
    assert_eq!(s.state, GameState::Paused);
    s.reward_points_on_collision(&vec![4]);
    assert_eq!(s.data.points, 0);
    s.resume();
    assert_eq!(s.state, GameState::Playing);
}

#[test]
fn reload_resets_score_shots_camera_and_drag() {
    let mut s = session();
    s.reward_points_on_collision(&vec![4]);
    s.data.shots = 1;
    s.camera.zoom(1000);
    s.drag.begin(1, Vec2i::new(0, 0)).unwrap();
    s.reload(&scene());
    assert_eq!(s.data.points, 0);
    assert_eq!(s.data.shots, 3);
    assert_eq!(s.drag.current(), None);
    assert_eq!(s.camera, GameCamera::default());
    assert!(!s.objects[4].collected);
}

#[test]
fn no_level_means_loading() {
    let s = GameSession::load(None, &vec![]);
    assert_eq!(s.state, GameState::Loading);
    assert_eq!(s.data.shots, 0);
}

#[test]
fn stars_by_threshold() {
    let t = StarThresholds { first: 25, second: 50, third: 75 };
    assert_eq!(star_count(0, t), 0);
    assert_eq!(star_count(24, t), 0);
    assert_eq!(star_count(25, t), 1);
    assert_eq!(star_count(60, t), 2);
    assert_eq!(star_count(75, t), 3);
    assert_eq!(star_count(-3, t), 0);
}

#[test]
fn spawn_rests_on_the_first_spawn_point() {
    let objects = place_objects(&vec![
        node("Object", 0, 0),
        SceneNode { name: "Spawn".to_string(), position: Vec3i::new(1, 2, 3) },
        node("Spawn", 9, 9),
    ]);
    assert_eq!(spawn_position(&objects), Some(Vec3i::new(1, 2, 203)));
    assert_eq!(spawn_position(&place_objects(&vec![node("Object", 0, 0)])), None);
    let high = place_objects(&vec![SceneNode { name: "Spawn".to_string(), position: Vec3i::new(0, 0, i32::MAX) }]);
    assert_eq!(spawn_position(&high), None);
}

#[test]
fn a_whole_shot_through_the_ticks() {

    let mut s = session();
    let circle = AimCircle { width: 700, height: 1400 };
    let frame = AimFrame {
        player_screen: Vec2i::new(350, 700),
        height: 1400,
        player: Vec3i::new(0, 0, 0),
        ray: Ray { origin: Vec3i::new(0, -5000, 5000), direction: Vec3i::new(0, 4, -5) },
    };
    let mut agg = InputAggregator::new();

    agg.update(&vec![InputEvent::Press { id: 1, position: Vec2i::new(350, 700) }]);
    s.input_tick(&agg, circle);
    assert!(s.drag.current().is_some());
    assert_eq!(s.aim_tick(frame), None);

    // drag 700 px away: full power
    agg.update(&vec![InputEvent::Move { id: 1, position: Vec2i::new(350, 1400) }]);
    s.input_tick(&agg, circle);
    assert_eq!(s.aim_tick(frame), None);
    assert_eq!(s.arrow.power, 1000);

    agg.update(&vec![InputEvent::Release { id: 1 }]);
    s.input_tick(&agg, circle);
    let launch = s.aim_tick(frame).unwrap();
    assert_eq!(launch.direction, Dir2 { x: 0, y: -5000 });
    assert_eq!(launch.magnitude_milli, 250_000);
    assert_eq!(s.data.shots, 2);
    assert_eq!(s.drag.current(), None);
}

#[test]
fn a_decided_outcome_stays_until_reload() {
    let mut s = session();
    s.lose_on_pass_through_bounds(true);
    s.lose_on_pass_through_bounds(false);
    assert_eq!(s.data.result, Some(false));
    s.win_on_pass_through_goal(&vec![3], Vec3i::new(4900, 0, 0));
    s.win_on_pass_through_goal(&vec![], Vec3i::new(5300, 0, 0));
    assert_eq!(s.data.result, Some(false));
    assert_eq!(s.state, GameState::Finished);
    assert_eq!(s.data.level, Some(GameLevel::Demo));
}
