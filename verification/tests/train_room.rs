use train_game::room::RoomCharacterStorage;
use train_game::train::{Train, ROOMS_COUNT};

#[test]
fn room_index_finds_first_position() {
    let t = Train { rooms: [3, 4, 5, 4, 6, 7, 8] };
    assert_eq!(ROOMS_COUNT, 7);
    assert_eq!(t.room_index(3), Some(0));
    assert_eq!(t.room_index(4), Some(1));
    assert_eq!(t.room_index(8), Some(6));
    assert_eq!(t.room_index(9), None);
}

#[test]
fn count_characters_counts_occupied_slots() {
    assert_eq!(RoomCharacterStorage(vec![]).count_characters(), 0);
    assert_eq!(RoomCharacterStorage(vec![None, None, None]).count_characters(), 0);
    assert_eq!(RoomCharacterStorage(vec![Some(1), None, Some(2), Some(3), None]).count_characters(), 3);
}
