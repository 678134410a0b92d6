use vstd::prelude::*;

verus! {

#[derive(Clone, Copy, Debug, PartialEq, Eq, Structural)]
pub enum PlayMenuState {
    Root,
    LevelSelect,
    Customize,
    Achievements,
}

#[derive(Clone, Copy, Debug, PartialEq, Eq, Structural)]
pub enum SettingsMenuState {
    Root,
    Graphics,
    Audio,
    Controls,
}

/// Which page of the main menu is shown.
#[derive(Clone, Copy, Debug, PartialEq, Eq, Structural)]
pub enum MenuState {
    Root,
    Play(PlayMenuState),
    Settings(SettingsMenuState),
}

/// One page up: a sub-page goes to its section's first page, a section's
/// first page to the root, and the root stays.
pub open spec fn back_of(m: MenuState) -> MenuState {
    match m {
        MenuState::Root => MenuState::Root,
        MenuState::Play(PlayMenuState::Root) => MenuState::Root,
        MenuState::Settings(SettingsMenuState::Root) => MenuState::Root,
        MenuState::Play(_) => MenuState::Play(PlayMenuState::Root),
        MenuState::Settings(_) => MenuState::Settings(SettingsMenuState::Root),
    }
}

impl MenuState {
    pub fn go_back(&mut self)
        ensures
            *final(self) == back_of(*old(self)),
    {
        *self = match *self {
            MenuState::Root
            | MenuState::Play(PlayMenuState::Root)
            | MenuState::Settings(SettingsMenuState::Root) => MenuState::Root,
            MenuState::Play(_) => MenuState::Play(PlayMenuState::Root),
            MenuState::Settings(_) => MenuState::Settings(SettingsMenuState::Root),
        };
    }
}

} // verus!
