use train_game::game_state::{GameState, GameplayState, MenuState};
use train_game::scene::{start_in_first_room, wagon_sprites, WagonSprite, TRAIN_SPRITE_FRAMES};
use train_game::train::Train;

#[test]
fn new_state_is_uninitialised() {
    let s = GameState::new();
    assert_eq!(s.gameplay_state, GameplayState::Uninit);
    assert_eq!(s.opened_menu, MenuState::Closed);
}

#[test]
fn game_starts_in_first_room() {
    let t = Train { rooms: [21, 22, 23, 24, 25, 26, 27] };
    let mut s = GameState::new();
    start_in_first_room(&mut s, &t);
    assert_eq!(
        s,
        GameState {
            gameplay_state: GameplayState::Room { room_id: 21, selected_character: 0 },
            opened_menu: MenuState::Closed,
        }
    );
}

#[test]
fn wagons_alternate_frames_and_layers() {
    let sprites = wagon_sprites();
    assert_eq!(TRAIN_SPRITE_FRAMES, 3);
    assert_eq!(sprites.len(), 6);
    assert_eq!(sprites[0], WagonSprite { position: 0, frame: 0, layer: 1 });
    assert_eq!(sprites[1], WagonSprite { position: 1, frame: 1, layer: 2 });
    assert_eq!(sprites[2], WagonSprite { position: 2, frame: 2, layer: 1 });
    assert_eq!(sprites[3], WagonSprite { position: 3, frame: 0, layer: 2 });
    assert_eq!(sprites[5], WagonSprite { position: 5, frame: 2, layer: 2 });
}
