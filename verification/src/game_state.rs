use vstd::prelude::*;

verus! {

/// The menu drawn over the game; `Closed` when the game itself is shown.
#[derive(Clone, Copy, Debug, PartialEq, Eq, Structural)]
pub enum MenuState {
    Closed,
    Journal,
    Pause,
}

/// Where the player is: looking at the whole train (the hub, with one room
/// selected) or standing inside a room, facing one of its characters.
#[derive(Clone, Copy, Debug, PartialEq, Eq, Structural)]
pub enum GameplayState {
    Uninit,
    Hub { selected_room: usize },
    Room { room_id: u64, selected_character: usize },
}

/// The whole state that the player's input acts on.
#[derive(Clone, Copy, Debug, PartialEq, Eq, Structural)]
pub struct GameState {
    pub gameplay_state: GameplayState,
    pub opened_menu: MenuState,
}

impl GameState {
    /// The state before the scene is set up: nothing to play yet, no menu.
    pub fn new() -> (s: GameState)
        ensures
            s.gameplay_state == GameplayState::Uninit,
            s.opened_menu == MenuState::Closed,
    {
        GameState { gameplay_state: GameplayState::Uninit, opened_menu: MenuState::Closed }
    }
}

} // verus!
