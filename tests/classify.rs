use small_3d_game::classify::{classify, GoalDirection, LevelObjectType};

#[test]
fn classify_scenarios() {
    assert_eq!(classify("Point_15.glb_mesh"), Some(LevelObjectType::PointPickup { reward: 15 }));
    assert_eq!(classify("Goal_Y-_arrow"), Some(LevelObjectType::Goal(GoalDirection::YMinus)));
    assert_eq!(classify("Unknown"), None);
}

#[test]
fn classify_plain_kinds() {
    assert_eq!(classify("Object"), Some(LevelObjectType::StaticGeometry));
    assert_eq!(classify("Object.001"), Some(LevelObjectType::StaticGeometry));
    assert_eq!(classify("Bounds"), Some(LevelObjectType::OutOfBounds));
    assert_eq!(classify("Bounds.001"), None);
    assert_eq!(classify("Spawn"), Some(LevelObjectType::SpawnPoint));
    assert_eq!(classify("Spawner"), None);
    assert_eq!(classify(""), None);
}

#[test]
fn classify_goal_directions() {
    assert_eq!(classify("Goal_X+"), Some(LevelObjectType::Goal(GoalDirection::XPlus)));
    assert_eq!(classify("Goal_X-.001"), Some(LevelObjectType::Goal(GoalDirection::XMinus)));
    assert_eq!(classify("Goal_Y+"), Some(LevelObjectType::Goal(GoalDirection::YPlus)));
    assert_eq!(GoalDirection::YMinus.as_vector(), (0, -1));
    assert_eq!(GoalDirection::XPlus.as_vector(), (1, 0));
}

#[test]
fn classify_rejects_malformed_suffixes() {
    assert_eq!(classify("Goal_Q+"), None);
    assert_eq!(classify("Goal_X"), None);
    assert_eq!(classify("Goal_"), None);
    assert_eq!(classify("Point_abc"), None);
    assert_eq!(classify("Point_"), None);
    assert_eq!(classify("Point_.glb"), None);
    assert_eq!(classify("Point_1x.glb"), None);
    assert_eq!(classify("Point_-"), None);
    assert_eq!(classify("Point_99999999999"), None);
}

#[test]
fn classify_point_rewards() {
    assert_eq!(classify("Point_7"), Some(LevelObjectType::PointPickup { reward: 7 }));
    assert_eq!(classify("Point_-5.mesh"), Some(LevelObjectType::PointPickup { reward: -5 }));
    assert_eq!(classify("Point_+5"), Some(LevelObjectType::PointPickup { reward: 5 }));
    assert_eq!(classify("Point_007.a.b"), Some(LevelObjectType::PointPickup { reward: 7 }));
    assert_eq!(classify("Point_2147483647"), Some(LevelObjectType::PointPickup { reward: 2147483647 }));
    assert_eq!(classify("Point_-2147483648"), Some(LevelObjectType::PointPickup { reward: -2147483648 }));
    assert_eq!(classify("Point_2147483648"), None);
}
