//! Arrow keys move the player.

use vstd::prelude::*;

use crate::events::{PlayerMoveDirection, PlayerMoveEvent};
use crate::systems::keyboard_events::{arrow_move, KeyboardState};

verus! {

/// The move that the arrow keys of one frame ask for.
pub fn arrow_keys(arrow_keys_input: &KeyboardState) -> (r: Option<PlayerMoveEvent>)
    ensures
        r == arrow_move(*arrow_keys_input),
{
    if arrow_keys_input.arrow_left_just_pressed {
        Some(PlayerMoveEvent { direction: PlayerMoveDirection::Left })
    } else if arrow_keys_input.arrow_right_just_pressed {
        Some(PlayerMoveEvent { direction: PlayerMoveDirection::Right })
    } else if arrow_keys_input.arrow_up_just_pressed {
        Some(PlayerMoveEvent { direction: PlayerMoveDirection::Up })
    } else if arrow_keys_input.arrow_down_just_pressed {
        Some(PlayerMoveEvent { direction: PlayerMoveDirection::Down })
    } else {
        None
    }
}

} // verus!
