use small_3d_game::camera::{
    GameCamera, DEFAULT_DISTANCE, DEFAULT_PITCH, MAX_DISTANCE, MAX_PITCH, MIN_DISTANCE, MIN_PITCH,
};
use small_3d_game::geometry::Vec2i;
use small_3d_game::gestures::CameraGestures;
use small_3d_game::inputs::{InputAggregator, InputEvent};

#[test]
fn camera_starts_at_its_defaults() {
    let c = GameCamera::default();
    assert_eq!(c.get_distance(), DEFAULT_DISTANCE);
    assert_eq!(c.get_offset(), (0, DEFAULT_PITCH));
}

#[test]
fn zero_zoom_and_rotate_change_nothing() {
    let mut c = GameCamera::default();
    c.rotate(13, -7);
    c.zoom(300);
    let before = c;
    for _ in 0..10 {
        c.zoom(0);
        c.rotate(0, 0);
    }
    assert_eq!(c, before);
}

#[test]
fn zoom_examples() {
    let mut c = GameCamera::default();
    c.zoom(1000);
    assert_eq!(c.get_distance(), 5_500_000);
    c.zoom(-400);
    assert_eq!(c.get_distance(), 5_700_000);
    // at most one line counts
    c.zoom(5000);
    assert_eq!(c.get_distance(), 5_200_000);
}

#[test]
fn zoom_and_rotate_stay_within_clamps() {
    let mut c = GameCamera::default();
    c.zoom(i64::MAX);
    c.zoom(i64::MAX);
    c.zoom(i64::MAX);
    c.zoom(i64::MAX);
    assert_eq!(c.get_distance(), MIN_DISTANCE);
    for _ in 0..20 {
        c.zoom(i64::MIN);
    }
    assert_eq!(c.get_distance(), MAX_DISTANCE);
    c.distance(i64::MAX);
    assert_eq!(c.get_distance(), MAX_DISTANCE);
    c.distance(i64::MIN);
    assert_eq!(c.get_distance(), MIN_DISTANCE);

    c.rotate(0, i64::MAX);
    assert_eq!(c.get_offset().1, MIN_PITCH);
    c.rotate(0, i64::MIN);
    assert_eq!(c.get_offset().1, MAX_PITCH);
    // yaw is not clamped: it keeps the whole turn
    c.offset(1_000_000_000, 0);
    assert_eq!(c.get_offset().0, 1_000_000_000);
}

#[test]
fn rotate_turns_yaw_and_pitch() {
    let mut c = GameCamera::default();
    c.rotate(10, 5);
    assert_eq!(c.get_offset(), (200_000, DEFAULT_PITCH - 100_000));
    c.rotate(-20, 0);
    assert_eq!(c.get_offset(), (-200_000, DEFAULT_PITCH - 100_000));
    // a full turn and more is added, not wrapped
    c.offset(6_283_185, 0);
    assert_eq!(c.get_offset().0, 6_083_185);
}

#[test]
fn pinch_moves_in_steps_past_a_dead_zone() {
    let mut c = GameCamera::default();
    c.pinch(4);
    assert_eq!(c.get_distance(), DEFAULT_DISTANCE);
    c.pinch(1000);
    assert_eq!(c.get_distance(), DEFAULT_DISTANCE - 250_000);
    c.pinch(-5);
    assert_eq!(c.get_distance(), DEFAULT_DISTANCE);
}

#[test]
fn rotate_gesture_follows_one_finger() {
    let mut c = GameCamera::default();
    let mut g = CameraGestures::new();
    let mut agg = InputAggregator::new();
    agg.update(&vec![InputEvent::Press { id: 3, position: Vec2i::new(100, 100) }]);
    g.rotate_step(&mut c, &agg, false);
    assert_eq!(c, GameCamera::default());

    agg.update(&vec![InputEvent::Move { id: 3, position: Vec2i::new(110, 100) }]);
    g.rotate_step(&mut c, &agg, false);
    assert_eq!(c.get_offset(), (200_000, DEFAULT_PITCH));

    // a launch drag in progress abandons the rotate
    agg.update(&vec![InputEvent::Move { id: 3, position: Vec2i::new(120, 100) }]);
    g.rotate_step(&mut c, &agg, true);
    assert_eq!(g.rotate, None);
    assert_eq!(c.get_offset(), (200_000, DEFAULT_PITCH));
}

#[test]
fn pinch_gesture_zooms_with_two_fingers() {
    let mut c = GameCamera::default();
    let mut g = CameraGestures::new();
    let mut agg = InputAggregator::new();
    agg.update(&vec![
        InputEvent::Press { id: 1, position: Vec2i::new(0, 0) },
        InputEvent::Press { id: 2, position: Vec2i::new(10, 0) },
    ]);
    g.pinch_step(&mut c, &agg, false);
    assert_eq!(c.get_distance(), DEFAULT_DISTANCE);

    // fingers apart: closer
    agg.update(&vec![InputEvent::Move { id: 2, position: Vec2i::new(30, 0) }]);
    g.pinch_step(&mut c, &agg, false);
    assert_eq!(c.get_distance(), DEFAULT_DISTANCE - 250_000);

    // a third finger ends the pinch
    agg.update(&vec![InputEvent::Press { id: 7, position: Vec2i::new(50, 50) }]);
    g.pinch_step(&mut c, &agg, false);
    assert_eq!(g.pinch, None);
}
