use vstd::prelude::*;

use crate::game_state::{GameState, GameplayState};
use crate::train::{Train, ROOMS_COUNT};

verus! {

/// Number of frames in the sprite sheets of the wagons and of the locomotive.
pub const TRAIN_SPRITE_FRAMES: usize = 3;

/// How one wagon is drawn: its position in the train (front first), the frame
/// of the wagon sheet it starts on, and the layer it is drawn on (wagons next
/// to each other are on different layers, so that they overlap cleanly).
#[derive(Clone, Copy, Debug, PartialEq, Eq, Structural)]
pub struct WagonSprite {
    pub position: usize,
    pub frame: usize,
    pub layer: usize,
}

/// How the wagon at `position` is drawn.
pub open spec fn wagon_sprite_at(position: nat) -> WagonSprite {
    WagonSprite {
        position: position as usize,
        frame: (position % (TRAIN_SPRITE_FRAMES as nat)) as usize,
        layer: (position % 2 + 1) as usize,
    }
}

/// The first wagon starts on the first frame, on the front layer; each next
/// wagon starts one frame further round the sheet, on the other layer.
pub proof fn lemma_wagons_alternate(position: nat)
    ensures
        wagon_sprite_at(0).frame == 0,
        wagon_sprite_at(0).layer == 1,
        position < ROOMS_COUNT ==> {
            &&& wagon_sprite_at(position).position == position
            &&& wagon_sprite_at(position).frame < TRAIN_SPRITE_FRAMES
            &&& wagon_sprite_at(position + 1).frame == (wagon_sprite_at(position).frame + 1) % (TRAIN_SPRITE_FRAMES as int)
            &&& wagon_sprite_at(position).layer == 1 || wagon_sprite_at(position).layer == 2
            &&& wagon_sprite_at(position + 1).layer != wagon_sprite_at(position).layer
        },
{
}

/// The wagons of the train, every room but the locomotive, in order.
pub fn wagon_sprites() -> (sprites: Vec<WagonSprite>)
    ensures
        sprites@.len() == ROOMS_COUNT - 1,
        forall|i: int| 0 <= i < sprites@.len() ==> #[trigger] sprites@[i] == wagon_sprite_at(i as nat),
{
    let mut sprites: Vec<WagonSprite> = Vec::new();
    for i in 0..(ROOMS_COUNT - 1)
        invariant
            sprites@.len() == i,
            forall|j: int| 0 <= j < i ==> #[trigger] sprites@[j] == wagon_sprite_at(j as nat),
    {
        sprites.push(WagonSprite { position: i, frame: i % TRAIN_SPRITE_FRAMES, layer: i % 2 + 1 });
    }
    sprites
}

/// Puts the player in the first room of the train, facing its first character,
/// as the game does once the train is built.
pub fn start_in_first_room(state: &mut GameState, train: &Train)
    ensures
        final(state).gameplay_state == (GameplayState::Room { room_id: train.rooms@[0], selected_character: 0 }),
        final(state).opened_menu == old(state).opened_menu,
{
    state.gameplay_state = GameplayState::Room { room_id: train.rooms[0], selected_character: 0 };
}

} // verus!
