//! Keyboard input: arrow keys move the player, `L` and `H` change the light.

use vstd::prelude::*;

use crate::debug::{DebugConfigKey, UpdateDebugConfigEvent};
use crate::events::{PlayerMoveDirection, PlayerMoveEvent};

verus! {

/// The keys the game reads in one frame.
#[derive(Clone, Copy, PartialEq, Eq, Debug, Structural)]
pub struct KeyboardState {
    pub arrow_left_just_pressed: bool,
    pub arrow_right_just_pressed: bool,
    pub arrow_up_just_pressed: bool,
    pub arrow_down_just_pressed: bool,
    pub shift_left_pressed: bool,
    pub shift_right_pressed: bool,
    pub key_l_just_pressed: bool,
    pub key_h_just_pressed: bool,
}

/// The events that one frame of keyboard input sends.
#[derive(Clone, Copy, PartialEq, Eq, Debug, Structural)]
pub struct KeyboardEvents {
    pub player_move: Option<PlayerMoveEvent>,
    pub update_debug_config: Option<UpdateDebugConfigEvent>,
}

/// The move the arrow keys ask for; left wins over right, right over up, up
/// over down.
pub open spec fn arrow_move(k: KeyboardState) -> Option<PlayerMoveEvent> {
    if k.arrow_left_just_pressed {
        Some(PlayerMoveEvent { direction: PlayerMoveDirection::Left })
    } else if k.arrow_right_just_pressed {
        Some(PlayerMoveEvent { direction: PlayerMoveDirection::Right })
    } else if k.arrow_up_just_pressed {
        Some(PlayerMoveEvent { direction: PlayerMoveDirection::Up })
    } else if k.arrow_down_just_pressed {
        Some(PlayerMoveEvent { direction: PlayerMoveDirection::Down })
    } else {
        None
    }
}

/// The change of the light the keys ask for: `L` the intensity, `H` the
/// height (`L` wins); up, or down while a shift key is held.
pub open spec fn debug_config_change(k: KeyboardState) -> Option<UpdateDebugConfigEvent> {
    let shift = k.shift_left_pressed || k.shift_right_pressed;
    if k.key_l_just_pressed {
        Some(
            UpdateDebugConfigEvent {
                config_key: if shift {
                    DebugConfigKey::LightIntensityDecrease
                } else {
                    DebugConfigKey::LightIntensityIncrease
                },
            },
        )
    } else if k.key_h_just_pressed {
        Some(
            UpdateDebugConfigEvent {
                config_key: if shift {
                    DebugConfigKey::LightHeightDecrease
                } else {
                    DebugConfigKey::LightHeightIncrease
                },
            },
        )
    } else {
        None
    }
}

/// The same keys with the two shift keys swapped.
pub open spec fn shifts_swapped(k: KeyboardState) -> KeyboardState {
    KeyboardState { shift_left_pressed: k.shift_right_pressed, shift_right_pressed: k.shift_left_pressed, ..k }
}

/// The light keys: either shift key turns a step up into a step down, and
/// which of the two is held makes no difference. `L` steps the intensity,
/// `H` the height when `L` is not pressed, and with neither no change is
/// asked for.
pub proof fn lemma_light_keys(k: KeyboardState)
    ensures
        debug_config_change(shifts_swapped(k)) == debug_config_change(k),
        k.key_l_just_pressed && !k.shift_left_pressed && !k.shift_right_pressed ==> debug_config_change(k)
            == Some(UpdateDebugConfigEvent { config_key: DebugConfigKey::LightIntensityIncrease }),
        k.key_l_just_pressed && (k.shift_left_pressed || k.shift_right_pressed) ==> debug_config_change(k)
            == Some(UpdateDebugConfigEvent { config_key: DebugConfigKey::LightIntensityDecrease }),
        !k.key_l_just_pressed && k.key_h_just_pressed && !k.shift_left_pressed && !k.shift_right_pressed
            ==> debug_config_change(k) == Some(UpdateDebugConfigEvent { config_key: DebugConfigKey::LightHeightIncrease }),
        !k.key_l_just_pressed && k.key_h_just_pressed && (k.shift_left_pressed || k.shift_right_pressed)
            ==> debug_config_change(k) == Some(UpdateDebugConfigEvent { config_key: DebugConfigKey::LightHeightDecrease }),
        !k.key_l_just_pressed && !k.key_h_just_pressed ==> debug_config_change(k) is None,
{
}

/// The events of one frame of keyboard input.
pub fn keyboard_events_system(keyboard_input: &KeyboardState) -> (r: KeyboardEvents)
    ensures
        r.player_move == arrow_move(*keyboard_input),
        r.update_debug_config == debug_config_change(*keyboard_input),
        r.update_debug_config == debug_config_change(shifts_swapped(*keyboard_input)),
        !keyboard_input.key_l_just_pressed && keyboard_input.key_h_just_pressed && (
        keyboard_input.shift_left_pressed || keyboard_input.shift_right_pressed)
            ==> r.update_debug_config == Some(UpdateDebugConfigEvent { config_key: DebugConfigKey::LightHeightDecrease }),
        keyboard_input.key_l_just_pressed && (keyboard_input.shift_left_pressed
            || keyboard_input.shift_right_pressed) ==> r.update_debug_config == Some(
            UpdateDebugConfigEvent { config_key: DebugConfigKey::LightIntensityDecrease },
        ),
{
    let player_move = if keyboard_input.arrow_left_just_pressed {
        Some(PlayerMoveEvent { direction: PlayerMoveDirection::Left })
    } else if keyboard_input.arrow_right_just_pressed {
        Some(PlayerMoveEvent { direction: PlayerMoveDirection::Right })
    } else if keyboard_input.arrow_up_just_pressed {
        Some(PlayerMoveEvent { direction: PlayerMoveDirection::Up })
    } else if keyboard_input.arrow_down_just_pressed {
        Some(PlayerMoveEvent { direction: PlayerMoveDirection::Down })
    } else {
        None
    };

    let update_debug_config = if keyboard_input.shift_left_pressed
        || keyboard_input.shift_right_pressed {
        if keyboard_input.key_l_just_pressed {
            Some(UpdateDebugConfigEvent { config_key: DebugConfigKey::LightIntensityDecrease })
        } else if keyboard_input.key_h_just_pressed {
            Some(UpdateDebugConfigEvent { config_key: DebugConfigKey::LightHeightDecrease })
        } else {
            None
        }
    } else {
        if keyboard_input.key_l_just_pressed {
            Some(UpdateDebugConfigEvent { config_key: DebugConfigKey::LightIntensityIncrease })
        } else if keyboard_input.key_h_just_pressed {
            Some(UpdateDebugConfigEvent { config_key: DebugConfigKey::LightHeightIncrease })
        } else {
            None
        }
    };

    proof {
        lemma_light_keys(*keyboard_input);
    }
    KeyboardEvents { player_move, update_debug_config }
}

} // verus!
