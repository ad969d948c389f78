//! What the player's input does to the game: which entities are selected.

pub mod camera;
pub mod frame;
pub mod laws;
pub mod selection;
