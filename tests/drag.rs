use small_3d_game::drag::{AimCircle, DragError, DragInfo, DragInfoData};
use small_3d_game::geometry::Vec2i;
use small_3d_game::inputs::{InputAggregator, InputEvent};

fn press(id: u64, x: i32, y: i32) -> InputEvent {
    InputEvent::Press { id, position: Vec2i::new(x, y) }
}

#[test]
fn begin_refuses_a_second_session() {
    let mut drag = DragInfo::new();
    assert_eq!(drag.begin(1, Vec2i::new(5, 5)), Ok(()));
    assert_eq!(drag.begin(2, Vec2i::new(6, 6)), Err(DragError::AlreadyDragging));
    assert_eq!(
        drag.current(),
        Some(DragInfoData { point: Vec2i::new(5, 5), user_input: 1, confirmed: false })
    );
    drag.cancel();
    assert_eq!(drag.current(), None);
}

#[test]
fn aim_circle_covers_the_window_centre() {
    // 700 x 1400 window: radius 100 around (350, 700).
    let circle = AimCircle { width: 700, height: 1400 };
    assert!(circle.contains(Vec2i::new(350, 700)));
    assert!(circle.contains(Vec2i::new(450, 700)));
    assert!(!circle.contains(Vec2i::new(451, 700)));
    assert!(circle.contains(Vec2i::new(350, 600)));
    assert!(!circle.contains(Vec2i::new(0, 0)));
}

#[test]
fn start_aim_needs_a_press_in_the_circle_and_a_shot() {
    let circle = AimCircle { width: 700, height: 1400 };
    let mut agg = InputAggregator::new();
    agg.update(&vec![press(1, 0, 0), press(2, 360, 710)]);

    let mut drag = DragInfo::new();
    drag.start_aim(&agg, circle, 0);
    assert_eq!(drag.current(), None);

    drag.start_aim(&agg, circle, 3);
    assert_eq!(
        drag.current(),
        Some(DragInfoData { point: Vec2i::new(360, 710), user_input: 2, confirmed: false })
    );
}

#[test]
fn drag_follows_its_input_and_confirms_on_release() {
    let mut agg = InputAggregator::new();
    agg.update(&vec![press(4, 350, 700)]);
    let mut drag = DragInfo::new();
    drag.start_aim(&agg, AimCircle { width: 700, height: 1400 }, 1);

    agg.update(&vec![InputEvent::Move { id: 4, position: Vec2i::new(300, 900) }]);
    drag.update(&agg);
    let d = drag.current().unwrap();
    assert_eq!(d.point, Vec2i::new(300, 900));
    assert!(!d.confirmed);

    agg.update(&vec![InputEvent::Release { id: 4 }]);
    drag.update(&agg);
    let d = drag.current().unwrap();
    assert_eq!(d.point, Vec2i::new(300, 900));
    assert!(d.confirmed);
}

#[test]
fn second_touch_cancels_the_drag_in_the_same_tick() {
    let mut agg = InputAggregator::new();
    agg.update(&vec![press(1, 350, 700)]);
    let mut drag = DragInfo::new();
    drag.start_aim(&agg, AimCircle { width: 700, height: 1400 }, 2);
    assert!(drag.current().is_some());

    agg.update(&vec![press(2, 10, 10)]);
    drag.update(&agg);
    assert_eq!(drag.current(), None);
    // and it does not come back on its own
    agg.update(&vec![InputEvent::Release { id: 2 }]);
    drag.update(&agg);
    assert_eq!(drag.current(), None);
}
