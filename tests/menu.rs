use small_3d_game::menu::{MenuState, PlayMenuState, SettingsMenuState};

#[test]
fn go_back_climbs_one_page() {
    let mut m = MenuState::Play(PlayMenuState::LevelSelect);
    m.go_back();
    assert_eq!(m, MenuState::Play(PlayMenuState::Root));
    m.go_back();
    assert_eq!(m, MenuState::Root);
    m.go_back();
    assert_eq!(m, MenuState::Root);
    let mut s = MenuState::Settings(SettingsMenuState::Audio);
    s.go_back();
    assert_eq!(s, MenuState::Settings(SettingsMenuState::Root));
}
