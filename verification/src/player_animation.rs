//! The player's animations and the frames of the sprite sheet they use.

use vstd::prelude::*;

verus! {

#[derive(Clone, Copy, PartialEq, Eq, Debug, Structural)]
pub enum PlayerAnimationVariant {
    Idle,
    WalkRight,
    WalkLeft,
    WalkDown,
    WalkUp,
}

impl Default for PlayerAnimationVariant {
    fn default() -> (r: PlayerAnimationVariant)
        ensures
            r == PlayerAnimationVariant::Idle,
    {
        PlayerAnimationVariant::Idle
    }
}

impl PlayerAnimationVariant {
    /// The first frame of the animation in the sprite sheet and its number of
    /// frames. Walking left shows the frames of walking right, mirrored.
    pub fn page(&self) -> (r: (usize, usize))
        ensures
            r == (match *self {
                PlayerAnimationVariant::Idle => (0usize, 6usize),
                PlayerAnimationVariant::WalkRight | PlayerAnimationVariant::WalkLeft => (24, 6),
                PlayerAnimationVariant::WalkDown => (18, 6),
                PlayerAnimationVariant::WalkUp => (30, 6),
            }),
    {
        match self {
            PlayerAnimationVariant::Idle => (0, 6),
            PlayerAnimationVariant::WalkRight | PlayerAnimationVariant::WalkLeft => (24, 6),
            PlayerAnimationVariant::WalkDown => (18, 6),
            PlayerAnimationVariant::WalkUp => (30, 6),
        }
    }
}

/// The animation the player shows and the frame it has reached.
#[derive(Clone, Copy, PartialEq, Eq, Debug, Structural)]
pub struct PlayerAnimationState {
    pub variant: PlayerAnimationVariant,
    pub idx: usize,
}

impl Default for PlayerAnimationState {
    fn default() -> (r: PlayerAnimationState)
        ensures
            r == (PlayerAnimationState { variant: PlayerAnimationVariant::Idle, idx: 0 }),
    {
        PlayerAnimationState { variant: PlayerAnimationVariant::Idle, idx: 0 }
    }
}

} // verus!
