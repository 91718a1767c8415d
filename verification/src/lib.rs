//! Game logic of a train where the player walks from wagon to wagon and talks
//! with the characters riding in them: the input state machine, the train's
//! rooms, sprite animation frames and the dialogue automata of the characters.
pub mod animation;
pub mod game_state;
pub mod graph;
pub mod input;
pub mod room;
pub mod scene;
pub mod train;
