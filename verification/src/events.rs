//! Events that the input handling sends to the rest of the game.

use vstd::prelude::*;

use crate::utils::Translation;

verus! {

/// Add or remove a wall block at a point of the world.
#[derive(Clone, Copy, PartialEq, Eq, Debug, Structural)]
pub struct ToggleWallBlockEvent {
    pub translation: Translation,
}

/// Move on to the next point of interest.
#[derive(Clone, Copy, PartialEq, Eq, Debug, Structural)]
pub struct CyclePOIEvent;

#[derive(Clone, Copy, PartialEq, Eq, Debug, Structural)]
pub enum PlayerMoveDirection {
    Up,
    Down,
    Left,
    Right,
}

#[derive(Clone, Copy, PartialEq, Eq, Debug, Structural)]
pub struct PlayerMoveEvent {
    pub direction: PlayerMoveDirection,
}

} // verus!
