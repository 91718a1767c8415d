use vstd::prelude::*;

use crate::game_state::{GameState, GameplayState, MenuState};
use crate::room::{count_present, RoomCharacterStorage};
use crate::train::{first_index_of, Train, ROOMS_COUNT};

verus! {

/// The keys that went down during one frame.
#[derive(Clone, Copy, Debug, PartialEq, Eq, Structural)]
pub struct KeyPresses {
    pub left: bool,
    pub right: bool,
    pub space: bool,
    pub tab: bool,
    pub escape: bool,
    pub back: bool,
}

/// What a frame of input leads to: the new state, whether the dialogue box of
/// the selected character is to be shown, and the room the wagon camera is
/// to be placed over (while the player is in the hub).
#[derive(Clone, Copy, Debug, PartialEq, Eq, Structural)]
pub struct InputOutcome {
    pub state: GameState,
    pub show_text: bool,
    pub camera_room: Option<usize>,
}

/// `n - 1`, but never below zero.
pub open spec fn saturating_pred(n: usize) -> usize {
    if n == 0 {
        0
    } else {
        (n - 1) as usize
    }
}

/// Left arrow: select the previous room in the hub, or the previous character
/// in a room that has characters; neither goes below the first.
pub open spec fn left_step(s: GameState, characters: nat) -> GameState {
    if s.opened_menu == MenuState::Closed {
        match s.gameplay_state {
            GameplayState::Hub { selected_room } => GameState {
                gameplay_state: GameplayState::Hub { selected_room: saturating_pred(selected_room) },
                opened_menu: s.opened_menu,
            },
            GameplayState::Room { room_id, selected_character } => if characters != 0 {
                GameState {
                    gameplay_state: GameplayState::Room {
                        room_id,
                        selected_character: saturating_pred(selected_character),
                    },
                    opened_menu: s.opened_menu,
                }
            } else {
                s
            },
            GameplayState::Uninit => s,
        }
    } else {
        s
    }
}

/// Right arrow: select the next room in the hub, stopping at the last one, or
/// the next character of the room, wrapping round to the first.
pub open spec fn right_step(s: GameState, characters: nat) -> GameState {
    if s.opened_menu == MenuState::Closed {
        match s.gameplay_state {
            GameplayState::Hub { selected_room } => GameState {
                gameplay_state: GameplayState::Hub {
                    selected_room: if selected_room + 1 < ROOMS_COUNT - 1 {
                        (selected_room + 1) as usize
                    } else {
                        (ROOMS_COUNT - 1) as usize
                    },
                },
                opened_menu: s.opened_menu,
            },
            GameplayState::Room { room_id, selected_character } => if characters != 0 {
                GameState {
                    gameplay_state: GameplayState::Room {
                        room_id,
                        selected_character: ((selected_character + 1) % (characters as int)) as usize,
                    },
                    opened_menu: s.opened_menu,
                }
            } else {
                s
            },
            GameplayState::Uninit => s,
        }
    } else {
        s
    }
}

/// The right arrow has a next index to compute (it fails on the largest `usize`).
pub open spec fn right_defined(s: GameState, characters: nat) -> bool {
    s.opened_menu == MenuState::Closed ==> match s.gameplay_state {
        GameplayState::Hub { selected_room } => selected_room < usize::MAX,
        GameplayState::Room { selected_character, .. } => characters != 0
            ==> selected_character < usize::MAX,
        GameplayState::Uninit => true,
    }
}

/// Space in the hub: walk into the selected room, facing its first character.
pub open spec fn enter_step(s: GameState, rooms: Seq<u64>) -> GameState {
    if s.opened_menu == MenuState::Closed {
        match s.gameplay_state {
            GameplayState::Hub { selected_room } => GameState {
                gameplay_state: GameplayState::Room {
                    room_id: rooms[selected_room as int],
                    selected_character: 0,
                },
                opened_menu: s.opened_menu,
            },
            _ => s,
        }
    } else {
        s
    }
}

/// Space in the hub has a room to enter: the selection is inside the train.
pub open spec fn enter_defined(s: GameState, rooms: Seq<u64>) -> bool {
    s.opened_menu == MenuState::Closed ==> match s.gameplay_state {
        GameplayState::Hub { selected_room } => selected_room < rooms.len(),
        _ => true,
    }
}

/// Tab opens the journal when no menu is open and closes it when it is open.
pub open spec fn tab_step(s: GameState) -> GameState {
    GameState {
        gameplay_state: s.gameplay_state,
        opened_menu: match s.opened_menu {
            MenuState::Closed => MenuState::Journal,
            MenuState::Journal => MenuState::Closed,
            MenuState::Pause => MenuState::Pause,
        },
    }
}

/// Escape pauses the game when no menu is open and resumes it when paused.
pub open spec fn escape_step(s: GameState) -> GameState {
    GameState {
        gameplay_state: s.gameplay_state,
        opened_menu: match s.opened_menu {
            MenuState::Closed => MenuState::Pause,
            MenuState::Pause => MenuState::Closed,
            MenuState::Journal => MenuState::Journal,
        },
    }
}

/// Backspace in a room: go back to the hub, with that room selected.
pub open spec fn back_step(s: GameState, rooms: Seq<u64>) -> GameState {
    if s.opened_menu == MenuState::Closed {
        match s.gameplay_state {
            GameplayState::Room { room_id, .. } => GameState {
                gameplay_state: GameplayState::Hub {
                    selected_room: first_index_of(rooms, room_id) as usize,
                },
                opened_menu: s.opened_menu,
            },
            _ => s,
        }
    } else {
        s
    }
}

/// Backspace in a room finds the room in the train.
pub open spec fn back_defined(s: GameState, rooms: Seq<u64>) -> bool {
    s.opened_menu == MenuState::Closed ==> match s.gameplay_state {
        GameplayState::Room { room_id, .. } => rooms.contains(room_id),
        _ => true,
    }
}

/// Space talks to the selected character when the player stands in a room
/// with no menu open.
pub open spec fn talks(s: GameState) -> bool {
    s.opened_menu == MenuState::Closed && s.gameplay_state is Room
}

/// The hub camera is placed over the selected room, whatever the menu.
pub open spec fn camera_room_of(s: GameState) -> Option<usize> {
    match s.gameplay_state {
        GameplayState::Hub { selected_room } => Some(selected_room),
        _ => None,
    }
}

/// The states after each key of a frame is handled, in the order the keys are
/// looked at: left, right, space, tab, escape, backspace.
pub open spec fn after_left(s: GameState, keys: KeyPresses, characters: nat) -> GameState {
    if keys.left { left_step(s, characters) } else { s }
}

pub open spec fn after_right(s: GameState, keys: KeyPresses, characters: nat) -> GameState {
    let s1 = after_left(s, keys, characters);
    if keys.right { right_step(s1, characters) } else { s1 }
}

pub open spec fn after_space(s: GameState, keys: KeyPresses, rooms: Seq<u64>, characters: nat) -> GameState {
    let s2 = after_right(s, keys, characters);
    if keys.space { enter_step(s2, rooms) } else { s2 }
}

pub open spec fn after_menus(s: GameState, keys: KeyPresses, rooms: Seq<u64>, characters: nat) -> GameState {
    let s3 = after_space(s, keys, rooms, characters);
    let s4 = if keys.tab { tab_step(s3) } else { s3 };
    if keys.escape { escape_step(s4) } else { s4 }
}

pub open spec fn after_back(s: GameState, keys: KeyPresses, rooms: Seq<u64>, characters: nat) -> GameState {
    let s5 = after_menus(s, keys, rooms, characters);
    if keys.back { back_step(s5, rooms) } else { s5 }
}

/// A frame of input on state `s`, in a train whose rooms are `rooms`, where
/// the room the player stands in holds `characters` characters.
pub open spec fn input_outcome(s: GameState, keys: KeyPresses, rooms: Seq<u64>, characters: nat) -> InputOutcome {
    let end = after_back(s, keys, rooms, characters);
    InputOutcome { state: end, show_text: keys.space && talks(end), camera_room: camera_room_of(end) }
}

/// The frame can be handled: each key pressed finds what it needs.
pub open spec fn input_defined(s: GameState, keys: KeyPresses, rooms: Seq<u64>, characters: nat) -> bool {
    &&& keys.right ==> right_defined(after_left(s, keys, characters), characters)
    &&& keys.space ==> enter_defined(after_right(s, keys, characters), rooms)
    &&& keys.back ==> back_defined(after_menus(s, keys, rooms, characters), rooms)
}

impl GameState {
    /// Handles the left arrow; `characters` is the number of characters in the
    /// room the player stands in.
    pub fn press_left(&mut self, characters: usize)
        ensures
            *final(self) == left_step(*old(self), characters as nat),
    {
        if self.opened_menu == MenuState::Closed {
            match self.gameplay_state {
                GameplayState::Hub { selected_room } => {
                    let sel = if selected_room == 0 { 0 } else { selected_room - 1 };
                    self.gameplay_state = GameplayState::Hub { selected_room: sel };
                },
                GameplayState::Room { room_id, selected_character } => {
                    if characters != 0 {
                        let sel = if selected_character == 0 { 0 } else { selected_character - 1 };
                        self.gameplay_state = GameplayState::Room { room_id, selected_character: sel };
                    }
                },
                GameplayState::Uninit => {},
            }
        }
    }

    /// Handles the right arrow.
    pub fn press_right(&mut self, characters: usize)
        requires
            right_defined(*old(self), characters as nat),
        ensures
            *final(self) == right_step(*old(self), characters as nat),
    {
        if self.opened_menu == MenuState::Closed {
            match self.gameplay_state {
                GameplayState::Hub { selected_room } => {
                    let next = selected_room + 1;
                    let sel = if next < ROOMS_COUNT - 1 { next } else { ROOMS_COUNT - 1 };
                    self.gameplay_state = GameplayState::Hub { selected_room: sel };
                },
                GameplayState::Room { room_id, selected_character } => {
                    if characters != 0 {
                        let sel = (selected_character + 1) % characters;
                        self.gameplay_state = GameplayState::Room { room_id, selected_character: sel };
                    }
                },
                GameplayState::Uninit => {},
            }
        }
    }

    /// Handles the first reading of space: entering the selected room.
    pub fn press_space(&mut self, train: &Train)
        requires
            enter_defined(*old(self), train.rooms@),
        ensures
            *final(self) == enter_step(*old(self), train.rooms@),
    {
        if self.opened_menu == MenuState::Closed {
            if let GameplayState::Hub { selected_room } = self.gameplay_state {
                self.gameplay_state = GameplayState::Room {
                    room_id: train.rooms[selected_room],
                    selected_character: 0,
                };
            }
        }
    }

    /// Handles tab.
    pub fn press_tab(&mut self)
        ensures
            *final(self) == tab_step(*old(self)),
    {
        match self.opened_menu {
            MenuState::Closed => self.opened_menu = MenuState::Journal,
            MenuState::Journal => self.opened_menu = MenuState::Closed,
            MenuState::Pause => {},
        }
    }

    /// Handles escape.
    pub fn press_escape(&mut self)
        ensures
            *final(self) == escape_step(*old(self)),
    {
        match self.opened_menu {
            MenuState::Closed => self.opened_menu = MenuState::Pause,
            MenuState::Pause => self.opened_menu = MenuState::Closed,
            MenuState::Journal => {},
        }
    }

    /// Handles backspace.
    pub fn press_back(&mut self, train: &Train)
        requires
            back_defined(*old(self), train.rooms@),
        ensures
            *final(self) == back_step(*old(self), train.rooms@),
    {
        if self.opened_menu == MenuState::Closed {
            if let GameplayState::Room { room_id, .. } = self.gameplay_state {
                match train.room_index(room_id) {
                    Some(i) => {
                        self.gameplay_state = GameplayState::Hub { selected_room: i };
                    },
                    None => {},
                }
            }
        }
    }
}

/// Whether a frame of input can be handled: `false` exactly where handling it
/// would have no room to enter, no room to leave, or no next index to compute.
pub fn input_is_handled(
    state: GameState,
    keys: KeyPresses,
    train: &Train,
    characters: &RoomCharacterStorage,
) -> (ok: bool)
    ensures
        ok == input_defined(state, keys, train.rooms@, count_present(characters.0@)),
{
    let count = characters.count_characters();
    let mut s = state;
    s.press_left_if(keys.left, count);
    if keys.right {
        let right_ok = if s.opened_menu == MenuState::Closed {
            match s.gameplay_state {
                GameplayState::Hub { selected_room } => selected_room < usize::MAX,
                GameplayState::Room { selected_character, .. } => count == 0
                    || selected_character < usize::MAX,
                GameplayState::Uninit => true,
            }
        } else {
            true
        };
        if !right_ok {
            return false;
        }
        s.press_right(count);
    }
    if keys.space {
        let space_ok = if s.opened_menu == MenuState::Closed {
            match s.gameplay_state {
                GameplayState::Hub { selected_room } => selected_room < ROOMS_COUNT,
                _ => true,
            }
        } else {
            true
        };
        if !space_ok {
            return false;
        }
        s.press_space(train);
    }
    if keys.tab {
        s.press_tab();
    }
    if keys.escape {
        s.press_escape();
    }
    if keys.back && s.opened_menu == MenuState::Closed {
        if let GameplayState::Room { room_id, .. } = s.gameplay_state {
            return train.room_index(room_id).is_some();
        }
    }
    true
}

impl GameState {
    /// Handles the left arrow when it was pressed.
    fn press_left_if(&mut self, pressed: bool, characters: usize)
        ensures
            *final(self) == if pressed { left_step(*old(self), characters as nat) } else { *old(self) },
    {
        if pressed {
            self.press_left(characters);
        }
    }
}

/// Handles one frame of the player's input.
///
/// `characters` holds the character slots of the room the player stands in
/// (any storage, such as an empty one, when the player is not in a room).
/// Keys are looked at in a fixed order: left, right, space (entering a room),
/// tab, escape, backspace, then space again (talking to the selected
/// character, which a room just entered already allows).
pub fn handle_input(
    state: GameState,
    keys: KeyPresses,
    train: &Train,
    characters: &RoomCharacterStorage,
) -> (out: InputOutcome)
    requires
        input_defined(state, keys, train.rooms@, count_present(characters.0@)),
    ensures
        out == input_outcome(state, keys, train.rooms@, count_present(characters.0@)),
{
    let count = characters.count_characters();
    let mut s = state;
    s.press_left_if(keys.left, count);
    if keys.right {
        s.press_right(count);
    }
    if keys.space {
        s.press_space(train);
    }
    if keys.tab {
        s.press_tab();
    }
    if keys.escape {
        s.press_escape();
    }
    if keys.back {
        s.press_back(train);
    }
    let show_text = keys.space && s.opened_menu == MenuState::Closed && match s.gameplay_state {
        GameplayState::Room { .. } => true,
        _ => false,
    };
    let camera_room = match s.gameplay_state {
        GameplayState::Hub { selected_room } => Some(selected_room),
        _ => None,
    };
    InputOutcome { state: s, show_text, camera_room }
}


/// A frame in which no key went down.
pub open spec fn no_keys() -> KeyPresses {
    KeyPresses { left: false, right: false, space: false, tab: false, escape: false, back: false }
}

/// A frame in which only tab went down.
pub open spec fn tab_only() -> KeyPresses {
    KeyPresses { tab: true, ..no_keys() }
}

/// A frame in which only escape went down.
pub open spec fn escape_only() -> KeyPresses {
    KeyPresses { escape: true, ..no_keys() }
}

/// A frame in which only space went down.
pub open spec fn space_only() -> KeyPresses {
    KeyPresses { space: true, ..no_keys() }
}

/// A frame in which only backspace went down.
pub open spec fn back_only() -> KeyPresses {
    KeyPresses { back: true, ..no_keys() }
}

/// A frame in which only the right arrow went down.
pub open spec fn right_only() -> KeyPresses {
    KeyPresses { right: true, ..no_keys() }
}

/// Tab opens the journal when no menu is open, and pressing it a second time
/// gives back the state from before the first press.
pub proof fn lemma_tab_toggles_journal(s: GameState, rooms: Seq<u64>, characters: nat)
    ensures
        input_defined(s, tab_only(), rooms, characters),
        s.opened_menu == MenuState::Closed ==> input_outcome(s, tab_only(), rooms, characters).state.opened_menu
            == MenuState::Journal,
        input_outcome(input_outcome(s, tab_only(), rooms, characters).state, tab_only(), rooms, characters).state
            == s,
{
}

/// Escape pauses the game when no menu is open, and pressing it a second time
/// gives back the state from before the first press.
pub proof fn lemma_escape_toggles_pause(s: GameState, rooms: Seq<u64>, characters: nat)
    ensures
        input_defined(s, escape_only(), rooms, characters),
        s.opened_menu == MenuState::Closed ==> input_outcome(s, escape_only(), rooms, characters).state.opened_menu
            == MenuState::Pause,
        input_outcome(input_outcome(s, escape_only(), rooms, characters).state, escape_only(), rooms, characters).state
            == s,
{
}

/// Leaving a room for the hub selects that room, and space then leads back
/// into it, facing its first character, with the dialogue box shown.
pub proof fn lemma_leave_then_reenter_room(
    s: GameState,
    rooms: Seq<u64>,
    characters_in: nat,
    characters_hub: nat,
)
    requires
        s.opened_menu == MenuState::Closed,
        s.gameplay_state is Room,
        rooms.len() == ROOMS_COUNT,
        rooms.contains(s.gameplay_state->room_id),
    ensures
        input_defined(s, back_only(), rooms, characters_in),
        ({
            let hub = input_outcome(s, back_only(), rooms, characters_in);
            let back_in = input_outcome(hub.state, space_only(), rooms, characters_hub);
            &&& hub.state.gameplay_state is Hub
            &&& rooms[hub.state.gameplay_state->selected_room as int] == s.gameplay_state->room_id
            &&& hub.camera_room == Some(hub.state.gameplay_state->selected_room)
            &&& input_defined(hub.state, space_only(), rooms, characters_hub)
            &&& back_in.state == GameState {
                gameplay_state: GameplayState::Room {
                    room_id: s.gameplay_state->room_id,
                    selected_character: 0,
                },
                opened_menu: MenuState::Closed,
            }
            &&& back_in.show_text
        }),
{
    crate::train::lemma_first_index_exists(rooms, s.gameplay_state->room_id);
}

/// Entering the selected room from the hub and leaving it again selects the
/// same room in the hub, in a train whose rooms are distinct entities.
pub proof fn lemma_enter_then_leave_room(
    s: GameState,
    rooms: Seq<u64>,
    characters_hub: nat,
    characters_in: nat,
)
    requires
        s.opened_menu == MenuState::Closed,
        s.gameplay_state is Hub,
        s.gameplay_state->selected_room < rooms.len(),
        forall|i: int, j: int| 0 <= i < j < rooms.len() ==> rooms[i] != rooms[j],
    ensures
        input_defined(s, space_only(), rooms, characters_hub),
        ({
            let inside = input_outcome(s, space_only(), rooms, characters_hub);
            let out = input_outcome(inside.state, back_only(), rooms, characters_in);
            &&& inside.state.gameplay_state == GameplayState::Room {
                room_id: rooms[s.gameplay_state->selected_room as int],
                selected_character: 0,
            }
            &&& inside.show_text
            &&& input_defined(inside.state, back_only(), rooms, characters_in)
            &&& out.state == s
            &&& out.camera_room == Some(s.gameplay_state->selected_room)
        }),
{
    let i = s.gameplay_state->selected_room as int;
    let r = rooms[i];
    assert(rooms.contains(r));
    crate::train::lemma_first_index_exists(rooms, r);
    assert(crate::train::is_first_index(rooms, r, i));
    crate::train::lemma_first_index_unique(rooms, r, i, first_index_of(rooms, r));
}

/// The hub's selection always stays on a room of the train, and so does the
/// camera placed over it.
pub proof fn lemma_hub_selection_in_train(
    s: GameState,
    keys: KeyPresses,
    rooms: Seq<u64>,
    characters: nat,
)
    requires
        rooms.len() == ROOMS_COUNT,
        s.gameplay_state is Hub ==> s.gameplay_state->selected_room < ROOMS_COUNT,
        input_defined(s, keys, rooms, characters),
    ensures
        ({
            let out = input_outcome(s, keys, rooms, characters);
            &&& out.state.gameplay_state is Hub ==> out.state.gameplay_state->selected_room < ROOMS_COUNT
            &&& out.camera_room matches Some(i) ==> i < ROOMS_COUNT
        }),
{
    let s5 = after_menus(s, keys, rooms, characters);
    if keys.back && s5.opened_menu == MenuState::Closed && s5.gameplay_state is Room {
        crate::train::lemma_first_index_exists(rooms, s5.gameplay_state->room_id);
    }
}

/// While the journal or the pause menu is open, the arrows and space leave
/// the player where they are: only closing the menu and then backspace, in
/// the same frame, can move them.
pub proof fn lemma_open_menu_holds_gameplay(
    s: GameState,
    keys: KeyPresses,
    rooms: Seq<u64>,
    characters: nat,
)
    requires
        s.opened_menu != MenuState::Closed,
        !keys.back,
    ensures
        input_defined(s, keys, rooms, characters),
        input_outcome(s, keys, rooms, characters).state.gameplay_state == s.gameplay_state,
{
}

/// In a room, the selected character stays one of the room's characters:
/// when it was one before the frame and the player is still in a room after
/// it, it still is.
pub proof fn lemma_character_selection_in_room(
    s: GameState,
    keys: KeyPresses,
    rooms: Seq<u64>,
    characters: nat,
)
    requires
        s.gameplay_state is Room,
        s.gameplay_state->selected_character < characters,
        input_defined(s, keys, rooms, characters),
    ensures
        ({
            let out = input_outcome(s, keys, rooms, characters);
            out.state.gameplay_state is Room ==> {
                &&& out.state.gameplay_state->room_id == s.gameplay_state->room_id
                &&& out.state.gameplay_state->selected_character < characters
            }
        }),
{
    let s1 = after_left(s, keys, characters);
    vstd::arithmetic::div_mod::lemma_mod_bound(s1.gameplay_state->selected_character + 1, characters as int);
}

/// The dialogue box is shown exactly when space went down and the frame ends
/// with the player in a room and no menu open: never over the journal or the
/// pause menu, never in the hub.
pub proof fn lemma_dialogue_only_when_talking(
    s: GameState,
    keys: KeyPresses,
    rooms: Seq<u64>,
    characters: nat,
)
    ensures
        ({
            let out = input_outcome(s, keys, rooms, characters);
            out.show_text <==> (keys.space && out.state.opened_menu == MenuState::Closed
                && out.state.gameplay_state is Room)
        }),
{
}

/// A frame that starts and ends with a menu open can always be handled, and
/// leaves the player where they were, without dialogue; a frame with a menu
/// open in which neither tab nor escape went down changes nothing at all,
/// whatever else went down (backspace included).
pub proof fn lemma_open_menu_frame(
    s: GameState,
    keys: KeyPresses,
    rooms: Seq<u64>,
    characters: nat,
)
    requires
        s.opened_menu != MenuState::Closed,
    ensures
        ({
            let out = input_outcome(s, keys, rooms, characters);
            &&& out.state.opened_menu != MenuState::Closed ==> {
                &&& input_defined(s, keys, rooms, characters)
                &&& out.state.gameplay_state == s.gameplay_state
                &&& !out.show_text
            }
            &&& (!keys.tab && !keys.escape) ==> {
                &&& input_defined(s, keys, rooms, characters)
                &&& out.state == s
                &&& !out.show_text
            }
        }),
{
}

/// With a menu open, the arrows, space and backspace each leave the state as
/// it is; tab and escape never move the player.
pub proof fn lemma_menu_keys_hold_gameplay(s: GameState, rooms: Seq<u64>, characters: nat)
    ensures
        s.opened_menu != MenuState::Closed ==> {
            &&& left_step(s, characters) == s
            &&& right_step(s, characters) == s
            &&& right_defined(s, characters)
            &&& enter_step(s, rooms) == s
            &&& enter_defined(s, rooms)
            &&& back_step(s, rooms) == s
            &&& back_defined(s, rooms)
        },
        tab_step(s).gameplay_state == s.gameplay_state,
        escape_step(s).gameplay_state == s.gameplay_state,
{
}

/// In the hub with no menu open, the left arrow selects the room before the
/// selected one (staying on the first), the right arrow the room after it
/// (staying on the last), and each undoes the other inside the train.
pub proof fn lemma_hub_arrows(sel: usize, characters: nat)
    ensures
        ({
            let hub = |i: usize| GameState {
                gameplay_state: GameplayState::Hub { selected_room: i },
                opened_menu: MenuState::Closed,
            };
            &&& sel > 0 ==> left_step(hub(sel), characters) == hub((sel - 1) as usize)
            &&& sel == 0 ==> left_step(hub(sel), characters) == hub(0)
            &&& sel + 1 < ROOMS_COUNT ==> right_step(hub(sel), characters) == hub((sel + 1) as usize)
            &&& sel + 1 >= ROOMS_COUNT ==> right_step(hub(sel), characters) == hub((ROOMS_COUNT - 1) as usize)
            &&& sel + 1 < ROOMS_COUNT ==> left_step(right_step(hub(sel), characters), characters) == hub(sel)
            &&& 0 < sel < ROOMS_COUNT ==> right_step(left_step(hub(sel), characters), characters) == hub(sel)
        }),
{
}

/// In a room with no menu open and `characters` characters, the left arrow
/// selects the character before the selected one (staying on the first), the
/// right arrow the one after it (going round to the first after the last);
/// in a room without characters they do nothing.
pub proof fn lemma_room_arrows(room_id: u64, sel: usize, characters: nat)
    requires
        sel < usize::MAX,
    ensures
        ({
            let room = |i: usize| GameState {
                gameplay_state: GameplayState::Room { room_id, selected_character: i },
                opened_menu: MenuState::Closed,
            };
            &&& characters == 0 ==> left_step(room(sel), characters) == room(sel)
            &&& characters == 0 ==> right_step(room(sel), characters) == room(sel)
            &&& characters > 0 && sel > 0 ==> left_step(room(sel), characters) == room((sel - 1) as usize)
            &&& characters > 0 && sel == 0 ==> left_step(room(sel), characters) == room(0)
            &&& sel + 1 < characters ==> right_step(room(sel), characters) == room((sel + 1) as usize)
            &&& sel + 1 == characters ==> right_step(room(sel), characters) == room(0)
            &&& right_defined(room(sel), characters)
        }),
{
    if sel + 1 < characters {
        vstd::arithmetic::div_mod::lemma_small_mod((sel + 1) as nat, characters);
    }
    if sel + 1 == characters {
        vstd::arithmetic::div_mod::lemma_mod_self_0(characters as int);
    }
}

/// With no menu open, space in the hub leads into the selected room, facing
/// its first character; backspace in a room of the train leads to the hub
/// with the first position of that room selected.
pub proof fn lemma_enter_and_back(s: GameState, rooms: Seq<u64>)
    requires
        s.opened_menu == MenuState::Closed,
    ensures
        s.gameplay_state matches GameplayState::Hub { selected_room } ==> (selected_room < rooms.len()
            ==> enter_step(s, rooms) == (GameState {
            gameplay_state: GameplayState::Room { room_id: rooms[selected_room as int], selected_character: 0 },
            opened_menu: MenuState::Closed,
        })),
        s.gameplay_state is Room ==> enter_step(s, rooms) == s,
        s.gameplay_state matches GameplayState::Room { room_id, .. } ==> (rooms.len() <= usize::MAX
            && rooms.contains(room_id) ==> {
            let t = back_step(s, rooms);
            &&& t.opened_menu == MenuState::Closed
            &&& t.gameplay_state is Hub
            &&& 0 <= t.gameplay_state->selected_room < rooms.len()
            &&& rooms[t.gameplay_state->selected_room as int] == room_id
            &&& forall|j: int| 0 <= j < t.gameplay_state->selected_room ==> rooms[j] != room_id
        }),
        s.gameplay_state is Hub ==> back_step(s, rooms) == s,
{
    if let GameplayState::Room { room_id, .. } = s.gameplay_state {
        if rooms.contains(room_id) {
            crate::train::lemma_first_index_exists(rooms, room_id);
        }
    }
}

/// A frame in which a single key went down does what that key does, and
/// the camera is placed over the selected room exactly when the frame ends
/// in the hub.
pub proof fn lemma_single_key_frames(s: GameState, keys: KeyPresses, rooms: Seq<u64>, characters: nat)
    ensures
        ({
            let out = input_outcome(s, keys, rooms, characters);
            &&& keys == (KeyPresses { left: true, ..no_keys() }) ==> out.state == left_step(s, characters)
            &&& keys == (KeyPresses { right: true, ..no_keys() }) ==> out.state == right_step(s, characters)
            &&& keys == (KeyPresses { space: true, ..no_keys() }) ==> out.state == enter_step(s, rooms)
            &&& keys == (KeyPresses { tab: true, ..no_keys() }) ==> out.state == tab_step(s)
            &&& keys == (KeyPresses { escape: true, ..no_keys() }) ==> out.state == escape_step(s)
            &&& keys == (KeyPresses { back: true, ..no_keys() }) ==> out.state == back_step(s, rooms)
            &&& keys == no_keys() ==> out.state == s && !out.show_text
            &&& forall|i: usize| out.camera_room == Some(i) <==> out.state.gameplay_state
                == (GameplayState::Hub { selected_room: i })
            &&& !(out.state.gameplay_state is Hub) <==> out.camera_room is None
        }),
{
}

/// The state after the right arrow has been pressed in `n` frames in a row.
pub open spec fn after_right_presses(s: GameState, rooms: Seq<u64>, characters: nat, n: nat) -> GameState
    decreases n,
{
    if n == 0 {
        s
    } else {
        input_outcome(after_right_presses(s, rooms, characters, (n - 1) as nat), right_only(), rooms, characters).state
    }
}

/// In a room with characters, the right arrow goes round them: pressed once
/// per frame as many times as there are characters, it comes back to the
/// character it started from, each press being one the game can handle.
pub proof fn lemma_right_cycles_characters(
    s: GameState,
    rooms: Seq<u64>,
    characters: nat,
    n: nat,
)
    requires
        s.opened_menu == MenuState::Closed,
        s.gameplay_state is Room,
        s.gameplay_state->selected_character < characters,
        characters <= usize::MAX,
    ensures
        input_defined(after_right_presses(s, rooms, characters, n), right_only(), rooms, characters),
        after_right_presses(s, rooms, characters, n) == (GameState {
            gameplay_state: GameplayState::Room {
                room_id: s.gameplay_state->room_id,
                selected_character: ((s.gameplay_state->selected_character + n) % (characters as int)) as usize,
            },
            opened_menu: MenuState::Closed,
        }),
        after_right_presses(s, rooms, characters, characters) == s,
    decreases n,
{
    lemma_right_presses(s, rooms, characters, n);
    lemma_right_presses(s, rooms, characters, characters);
    let sel = s.gameplay_state->selected_character as int;
    vstd::arithmetic::div_mod::lemma_mod_add_multiples_vanish(sel, characters as int);
    vstd::arithmetic::div_mod::lemma_small_mod(sel as nat, characters);
    assert(sel + characters == characters + sel);
}

proof fn lemma_right_presses(s: GameState, rooms: Seq<u64>, characters: nat, n: nat)
    requires
        s.opened_menu == MenuState::Closed,
        s.gameplay_state is Room,
        s.gameplay_state->selected_character < characters,
        characters <= usize::MAX,
    ensures
        input_defined(after_right_presses(s, rooms, characters, n), right_only(), rooms, characters),
        after_right_presses(s, rooms, characters, n) == (GameState {
            gameplay_state: GameplayState::Room {
                room_id: s.gameplay_state->room_id,
                selected_character: ((s.gameplay_state->selected_character + n) % (characters as int)) as usize,
            },
            opened_menu: MenuState::Closed,
        }),
    decreases n,
{
    let sel = s.gameplay_state->selected_character as int;
    let c = characters as int;
    if n == 0 {
        vstd::arithmetic::div_mod::lemma_small_mod(sel as nat, characters);
    } else {
        lemma_right_presses(s, rooms, characters, (n - 1) as nat);
        vstd::arithmetic::div_mod::lemma_mod_bound(sel + n - 1, c);
        vstd::arithmetic::div_mod::lemma_add_mod_noop_right(1, sel + n - 1, c);
        assert(1 + (sel + n - 1) == sel + n);
        vstd::arithmetic::div_mod::lemma_mod_bound(sel + n, c);
    }
    vstd::arithmetic::div_mod::lemma_mod_bound(sel + n, c);
}

} // verus!
