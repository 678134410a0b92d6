use small_3d_game::geometry::Vec2i;
use small_3d_game::power::{
    arrow_scale, arrow_seek_ms, drag_power, drag_reach, get_power_color, power, LinearRgb, FULL_POWER,
    MAX_THRESHOLD, MIN_THRESHOLD,
};

#[test]
fn power_is_zero_in_the_dead_zone() {
    assert_eq!(power(0), 0);
    assert_eq!(power(100), 0);
    assert_eq!(power(MIN_THRESHOLD), 0);
}

#[test]
fn power_is_full_past_saturation() {
    assert_eq!(power(MAX_THRESHOLD), FULL_POWER);
    assert_eq!(power(900), FULL_POWER);
    assert_eq!(power(u64::MAX), FULL_POWER);
}

#[test]
fn power_ramps_linearly() {
    assert_eq!(power(201), 2);
    assert_eq!(power(450), 500);
    assert_eq!(power(699), 998);
}

#[test]
fn power_never_decreases() {
    let mut last = 0;
    for x in 0..1200u64 {
        let p = power(x);
        assert!(p >= last);
        assert!(p <= FULL_POWER);
        last = p;
    }
}

#[test]
fn drag_reach_is_relative_to_half_the_viewport() {
    let player = Vec2i::new(100, 100);
    // 300 px on a 1000 px tall viewport: 0.6 of half the height.
    assert_eq!(drag_reach(player, Vec2i::new(100, 400), 1000), 600);
    // a 3-4-5 triangle: 250 px.
    assert_eq!(drag_reach(player, Vec2i::new(250, 300), 1000), 500);
    // capped at half the height.
    assert_eq!(drag_reach(player, Vec2i::new(100, 2000), 1000), 1000);
    assert_eq!(drag_reach(player, player, 1000), 0);
}

#[test]
fn drag_power_examples() {
    let player = Vec2i::new(0, 0);
    assert_eq!(drag_power(player, Vec2i::new(0, 100), 1000), 0);
    assert_eq!(drag_power(player, Vec2i::new(0, 225), 1000), 500);
    assert_eq!(drag_power(player, Vec2i::new(0, 400), 1000), 1000);
}

#[test]
fn power_colour_goes_green_yellow_red() {
    assert_eq!(get_power_color(0), LinearRgb { r: 0, g: 700, b: 0 });
    assert_eq!(get_power_color(250), LinearRgb { r: 350, g: 700, b: 0 });
    assert_eq!(get_power_color(500), LinearRgb { r: 700, g: 700, b: 0 });
    assert_eq!(get_power_color(750), LinearRgb { r: 700, g: 350, b: 0 });
    assert_eq!(get_power_color(1000), LinearRgb { r: 700, g: 0, b: 0 });
}

#[test]
fn arrow_scale_and_seek() {
    assert_eq!(arrow_scale(0), 650);
    assert_eq!(arrow_scale(500), 875);
    assert_eq!(arrow_scale(1000), 1100);
    assert_eq!(arrow_seek_ms(0), 0);
    assert_eq!(arrow_seek_ms(400), 1000);
    assert_eq!(arrow_seek_ms(1000), 2500);
}
