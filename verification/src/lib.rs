use vstd::prelude::*;

pub mod ball;
pub mod game;
pub mod game_state;
pub mod paddle;
pub mod powerup;
pub mod replay;
pub mod score;

verus! {

} // verus!
