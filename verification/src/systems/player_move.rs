//! Moving the player one cell at a time.

use vstd::prelude::*;

use crate::events::PlayerMoveDirection;
use crate::utils::Translation;
use crate::GRID_BLOCK_SIZE;

verus! {

/// How far a move in a direction takes the player: one cell.
pub fn translation_delta(direction: PlayerMoveDirection) -> (r: Translation)
    ensures
        r == (match direction {
            PlayerMoveDirection::Up => Translation { x: 0, y: GRID_BLOCK_SIZE, z: 0 },
            PlayerMoveDirection::Down => Translation { x: 0, y: (-GRID_BLOCK_SIZE) as i32, z: 0 },
            PlayerMoveDirection::Left => Translation { x: (-GRID_BLOCK_SIZE) as i32, y: 0, z: 0 },
            PlayerMoveDirection::Right => Translation { x: GRID_BLOCK_SIZE, y: 0, z: 0 },
        }),
{
    match direction {
        PlayerMoveDirection::Up => Translation { x: 0, y: GRID_BLOCK_SIZE, z: 0 },
        PlayerMoveDirection::Down => Translation { x: 0, y: -1 * GRID_BLOCK_SIZE, z: 0 },
        PlayerMoveDirection::Left => Translation { x: -1 * GRID_BLOCK_SIZE, y: 0, z: 0 },
        PlayerMoveDirection::Right => Translation { x: GRID_BLOCK_SIZE, y: 0, z: 0 },
    }
}

} // verus!
