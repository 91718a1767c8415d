use train_game::game_state::{GameState, GameplayState, MenuState};
use train_game::input::{handle_input, input_is_handled, InputOutcome, KeyPresses};
use train_game::room::RoomCharacterStorage;
use train_game::train::Train;

fn train() -> Train {
    Train { rooms: [10, 11, 12, 13, 14, 15, 16] }
}

fn keys() -> KeyPresses {
    KeyPresses { left: false, right: false, space: false, tab: false, escape: false, back: false }
}

fn hub(selected_room: usize) -> GameState {
    GameState { gameplay_state: GameplayState::Hub { selected_room }, opened_menu: MenuState::Closed }
}

fn room(room_id: u64, selected_character: usize) -> GameState {
    GameState {
        gameplay_state: GameplayState::Room { room_id, selected_character },
        opened_menu: MenuState::Closed,
    }
}

fn three_characters() -> RoomCharacterStorage {
    RoomCharacterStorage(vec![Some(100), None, Some(101), Some(102)])
}

fn empty_room() -> RoomCharacterStorage {
    RoomCharacterStorage(vec![None, None])
}

fn run(state: GameState, k: KeyPresses, characters: &RoomCharacterStorage) -> InputOutcome {
    assert!(input_is_handled(state, k, &train(), characters));
    handle_input(state, k, &train(), characters)
}

#[test]
fn no_key_keeps_state_and_places_camera_in_hub() {
    let out = run(hub(3), keys(), &empty_room());
    assert_eq!(out, InputOutcome { state: hub(3), show_text: false, camera_room: Some(3) });
    let out = run(room(12, 1), keys(), &three_characters());
    assert_eq!(out, InputOutcome { state: room(12, 1), show_text: false, camera_room: None });
}

#[test]
fn left_in_hub_stops_at_first_room() {
    assert_eq!(run(hub(3), KeyPresses { left: true, ..keys() }, &empty_room()).state, hub(2));
    assert_eq!(run(hub(0), KeyPresses { left: true, ..keys() }, &empty_room()).state, hub(0));
}

#[test]
fn right_in_hub_stops_at_last_room() {
    assert_eq!(run(hub(3), KeyPresses { right: true, ..keys() }, &empty_room()).state, hub(4));
    assert_eq!(run(hub(5), KeyPresses { right: true, ..keys() }, &empty_room()).state, hub(6));
    assert_eq!(run(hub(6), KeyPresses { right: true, ..keys() }, &empty_room()).state, hub(6));
    // A selection beyond the train is pulled back onto its last room.
    assert_eq!(run(hub(40), KeyPresses { right: true, ..keys() }, &empty_room()).state, hub(6));
}

#[test]
fn left_and_right_in_hub_same_frame() {
    let out = run(hub(0), KeyPresses { left: true, right: true, ..keys() }, &empty_room());
    assert_eq!(out.state, hub(1));
    assert_eq!(out.camera_room, Some(1));
}

#[test]
fn right_in_room_wraps_round_characters() {
    let c = three_characters();
    assert_eq!(run(room(12, 0), KeyPresses { right: true, ..keys() }, &c).state, room(12, 1));
    assert_eq!(run(room(12, 2), KeyPresses { right: true, ..keys() }, &c).state, room(12, 0));
    let mut s = room(12, 1);
    for _ in 0..3 {
        s = run(s, KeyPresses { right: true, ..keys() }, &c).state;
    }
    assert_eq!(s, room(12, 1));
}

#[test]
fn left_in_room_stops_at_first_character() {
    let c = three_characters();
    assert_eq!(run(room(12, 2), KeyPresses { left: true, ..keys() }, &c).state, room(12, 1));
    assert_eq!(run(room(12, 0), KeyPresses { left: true, ..keys() }, &c).state, room(12, 0));
}

#[test]
fn arrows_in_empty_room_change_nothing() {
    let c = empty_room();
    assert_eq!(run(room(12, 5), KeyPresses { left: true, ..keys() }, &c).state, room(12, 5));
    assert_eq!(run(room(12, 5), KeyPresses { right: true, ..keys() }, &c).state, room(12, 5));
}

#[test]
fn space_in_hub_enters_room_and_talks() {
    let out = run(hub(4), KeyPresses { space: true, ..keys() }, &empty_room());
    assert_eq!(out, InputOutcome { state: room(14, 0), show_text: true, camera_room: None });
}

#[test]
fn space_in_room_talks() {
    let out = run(room(12, 2), KeyPresses { space: true, ..keys() }, &three_characters());
    assert_eq!(out, InputOutcome { state: room(12, 2), show_text: true, camera_room: None });
}

#[test]
fn back_leaves_room_for_hub() {
    let out = run(room(15, 2), KeyPresses { back: true, ..keys() }, &three_characters());
    assert_eq!(out, InputOutcome { state: hub(5), show_text: false, camera_room: Some(5) });
}

#[test]
fn back_selects_first_room_with_that_entity() {
    let t = Train { rooms: [7, 8, 9, 8, 10, 11, 12] };
    let k = KeyPresses { back: true, ..keys() };
    let c = empty_room();
    assert!(input_is_handled(room(8, 0), k, &t, &c));
    assert_eq!(handle_input(room(8, 0), k, &t, &c).state, hub(1));
}

#[test]
fn leave_then_reenter_room() {
    let c = three_characters();
    let h = run(room(13, 2), KeyPresses { back: true, ..keys() }, &c).state;
    assert_eq!(h, hub(3));
    let out = run(h, KeyPresses { space: true, ..keys() }, &empty_room());
    assert_eq!(out.state, room(13, 0));
    assert!(out.show_text);
}

#[test]
fn tab_toggles_journal() {
    let s = room(12, 1);
    let opened = run(s, KeyPresses { tab: true, ..keys() }, &three_characters()).state;
    assert_eq!(opened.opened_menu, MenuState::Journal);
    let closed = run(opened, KeyPresses { tab: true, ..keys() }, &three_characters()).state;
    assert_eq!(closed, s);
    let paused = GameState { opened_menu: MenuState::Pause, ..s };
    assert_eq!(run(paused, KeyPresses { tab: true, ..keys() }, &three_characters()).state, paused);
}

#[test]
fn escape_toggles_pause() {
    let s = hub(2);
    let paused = run(s, KeyPresses { escape: true, ..keys() }, &empty_room()).state;
    assert_eq!(paused.opened_menu, MenuState::Pause);
    assert_eq!(run(paused, KeyPresses { escape: true, ..keys() }, &empty_room()).state, s);
    let journal = GameState { opened_menu: MenuState::Journal, ..s };
    assert_eq!(run(journal, KeyPresses { escape: true, ..keys() }, &empty_room()).state, journal);
}

#[test]
fn tab_and_escape_same_frame() {
    // Tab opens the journal first; escape then finds a menu open and does nothing.
    let out = run(hub(2), KeyPresses { tab: true, escape: true, ..keys() }, &empty_room());
    assert_eq!(out.state.opened_menu, MenuState::Journal);
}

#[test]
fn open_menu_blocks_arrows_and_space() {
    let s = GameState { opened_menu: MenuState::Pause, ..hub(3) };
    let out = run(s, KeyPresses { left: true, right: true, space: true, ..keys() }, &empty_room());
    assert_eq!(out, InputOutcome { state: s, show_text: false, camera_room: Some(3) });
}

#[test]
fn closing_journal_then_talking_same_frame() {
    // The journal is closed by tab before the second look at space.
    let s = GameState { opened_menu: MenuState::Journal, ..room(12, 0) };
    let out = run(s, KeyPresses { space: true, tab: true, ..keys() }, &three_characters());
    assert_eq!(out.state, room(12, 0));
    assert!(out.show_text);
}

#[test]
fn closing_journal_then_back_same_frame() {
    let s = GameState { opened_menu: MenuState::Journal, ..room(11, 0) };
    let out = run(s, KeyPresses { tab: true, back: true, ..keys() }, &three_characters());
    assert_eq!(out.state, hub(1));
}

#[test]
fn uninitialised_state_ignores_input() {
    let s = GameState::new();
    let all = KeyPresses { left: true, right: true, space: true, tab: false, escape: false, back: true };
    let out = run(s, all, &empty_room());
    assert_eq!(out, InputOutcome { state: s, show_text: false, camera_room: None });
}

#[test]
fn unhandled_frames_are_reported() {
    let t = train();
    let c = empty_room();
    // Space with a hub selection outside the train has no room to enter.
    assert!(!input_is_handled(hub(7), KeyPresses { space: true, ..keys() }, &t, &c));
    // Backspace in a room that is not part of the train has no room to select.
    assert!(!input_is_handled(room(99, 0), KeyPresses { back: true, ..keys() }, &t, &c));
    // The right arrow has no next room after the largest index.
    assert!(!input_is_handled(hub(usize::MAX), KeyPresses { right: true, ..keys() }, &t, &c));
    assert!(!input_is_handled(room(12, usize::MAX), KeyPresses { right: true, ..keys() }, &t, &three_characters()));
    // With the menu open none of these keys act.
    let paused = GameState { opened_menu: MenuState::Pause, ..hub(7) };
    assert!(input_is_handled(paused, KeyPresses { space: true, ..keys() }, &t, &c));
    // In an empty room the right arrow computes nothing.
    assert!(input_is_handled(room(12, usize::MAX), KeyPresses { right: true, ..keys() }, &t, &c));
    // Left first brings the selection back into the train.
    assert!(input_is_handled(hub(7), KeyPresses { left: true, space: true, ..keys() }, &t, &c));
    assert_eq!(handle_input(hub(7), KeyPresses { left: true, space: true, ..keys() }, &t, &c).state, room(16, 0));
}

#[test]
fn press_methods_act_alone() {
    let t = train();
    let mut s = hub(0);
    s.press_right(0);
    assert_eq!(s, hub(1));
    s.press_left(0);
    assert_eq!(s, hub(0));
    s.press_space(&t);
    assert_eq!(s, room(10, 0));
    s.press_tab();
    assert_eq!(s.opened_menu, MenuState::Journal);
    s.press_tab();
    s.press_escape();
    assert_eq!(s.opened_menu, MenuState::Pause);
    s.press_escape();
    s.press_back(&t);
    assert_eq!(s, hub(0));
}
