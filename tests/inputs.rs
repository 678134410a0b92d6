use small_3d_game::inputs::{mouse_events, touch_events, TouchPoint};
use small_3d_game::inputs::InputContact;
use small_3d_game::geometry::Vec2i;
use small_3d_game::inputs::{InputAggregator, InputEvent, Inputs, UserInputPosition};

#[test]
fn press_marks_held_and_fresh() {
    let mut inputs = Inputs::new();
    inputs.press(3);
    assert!(inputs.pressed(3));
    assert!(inputs.just_pressed(3));
    assert!(!inputs.just_released(3));
    assert_eq!(inputs.iter_pressed(), vec![3]);
    inputs.clear();
    assert!(inputs.pressed(3));
    assert!(!inputs.just_pressed(3));
    // pressing a held input again is not a new press
    inputs.press(3);
    assert!(!inputs.just_pressed(3));
    assert_eq!(inputs.pressed_count(), 1);
}

#[test]
fn release_of_untracked_input_does_nothing() {
    let mut inputs = Inputs::new();
    inputs.release(9);
    assert!(!inputs.just_released(9));
    assert_eq!(inputs.pressed_count(), 0);
    inputs.press(9);
    inputs.release(9);
    assert!(inputs.just_released(9));
    assert!(!inputs.pressed(9));
}

#[test]
fn pressed_inputs_keep_press_order() {
    let mut inputs = Inputs::new();
    inputs.press(5);
    inputs.press(2);
    inputs.press(7);
    inputs.release(2);
    assert_eq!(inputs.iter_pressed(), vec![5, 7]);
    assert_eq!(inputs.iter_just_pressed(), vec![5, 2, 7]);
}

#[test]
fn positions_are_set_and_forgotten() {
    let mut positions = UserInputPosition::new();
    positions.set(4, Some(Vec2i::new(1, 2)));
    assert_eq!(positions.get(4), Some(Vec2i::new(1, 2)));
    positions.set(4, None);
    assert_eq!(positions.get(4), None);
}

#[test]
fn aggregator_tracks_a_tick_of_events() {
    let mut agg = InputAggregator::new();
    agg.update(&vec![
        InputEvent::Press { id: 0, position: Vec2i::new(10, 10) },
        InputEvent::Press { id: 8, position: Vec2i::new(50, 60) },
        InputEvent::Move { id: 8, position: Vec2i::new(55, 65) },
    ]);
    assert!(agg.is_pressed(0));
    assert!(agg.is_pressed(8));
    assert!(agg.inputs.just_pressed(8));
    assert_eq!(agg.position_of(8), Some(Vec2i::new(55, 65)));

    agg.update(&vec![InputEvent::Release { id: 8 }, InputEvent::Release { id: 42 }]);
    assert!(!agg.is_pressed(8));
    assert!(agg.inputs.just_released(8));
    assert!(!agg.inputs.just_released(42));
    assert!(!agg.inputs.just_pressed(0));
    assert_eq!(agg.position_of(8), None);
    assert_eq!(agg.position_of(0), Some(Vec2i::new(10, 10)));

    agg.update(&vec![]);
    assert!(!agg.inputs.just_released(8));
}

#[test]
fn contacts_list_held_inputs() {
    let mut agg = InputAggregator::new();
    agg.update(&vec![
        InputEvent::Press { id: 2, position: Vec2i::new(1, 1) },
        InputEvent::Press { id: 9, position: Vec2i::new(4, 4) },
        InputEvent::Release { id: 9 },
    ]);
    assert_eq!(
        agg.contacts(),
        vec![InputContact { id: 2, position: Some(Vec2i::new(1, 1)), just_pressed: true, just_released: false }]
    );
}

#[test]
fn leave_forgets_the_position_but_keeps_the_press() {
    let mut agg = InputAggregator::new();
    agg.update(&vec![InputEvent::Press { id: 0, position: Vec2i::new(3, 4) }, InputEvent::Leave { id: 0 }]);
    assert!(agg.is_pressed(0));
    assert_eq!(agg.position_of(0), None);
}

#[test]
fn touch_frame_releases_touches_no_longer_reported() {
    let mut agg = InputAggregator::new();
    agg.update(&vec![
        InputEvent::Press { id: 0, position: Vec2i::new(1, 1) },
        InputEvent::Press { id: 5, position: Vec2i::new(2, 2) },
        InputEvent::Press { id: 6, position: Vec2i::new(3, 3) },
    ]);
    let held = vec![TouchPoint { id: 6, position: Vec2i::new(4, 4) }];
    let began = vec![TouchPoint { id: 7, position: Vec2i::new(9, 9) }];
    let events = touch_events(&vec![8], &began, &held, &agg);
    assert_eq!(
        events,
        vec![
            InputEvent::Release { id: 8 },
            InputEvent::Press { id: 7, position: Vec2i::new(9, 9) },
            InputEvent::Release { id: 5 },
            InputEvent::Move { id: 6, position: Vec2i::new(4, 4) },
        ]
    );
}

#[test]
fn mouse_frame_events() {
    assert_eq!(
        mouse_events(Some(Vec2i::new(3, 4)), true, false),
        vec![
            InputEvent::Move { id: 0, position: Vec2i::new(3, 4) },
            InputEvent::Press { id: 0, position: Vec2i::new(3, 4) },
        ]
    );
    assert_eq!(
        mouse_events(None, true, true),
        vec![InputEvent::Leave { id: 0 }, InputEvent::Release { id: 0 }]
    );
    assert_eq!(mouse_events(None, false, false), vec![InputEvent::Leave { id: 0 }]);
}
