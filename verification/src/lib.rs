//! Grid logic of a small top-down game: grid and world coordinates, recursive
//! shadowcasting geometry, path finding on the grid, points of interest and the
//! input handling that drives them.

use vstd::prelude::*;

pub mod collections;
pub mod components;
pub mod events;
pub mod player_animation;
pub mod systems;
pub mod debug;
pub mod field_of_view;
pub mod field_of_view_2;
pub mod utils;
pub mod visibility;

verus! {

/// The play field is square: it has this many cells on each axis.
pub const GRID_CELL_COUNT: i32 = 32;

/// Side of one grid cell in world units.
pub const GRID_BLOCK_SIZE: i32 = 16;

pub const WINDOW_HEIGHT: i32 = GRID_CELL_COUNT * GRID_BLOCK_SIZE;

/// One and a half times the window height.
pub const WINDOW_WIDTH: i32 = 768;

/// Index of the map layer that holds the walls.
pub const WALLS_LAYER_IDX: i32 = 1;

/// How far, in cells, the player can see.
pub const MAX_VISIBLE_DISTANCE: i32 = 8;

pub const LIGHT_INTENSITY: i32 = 8;

pub const LIGHT_HEIGHT: i32 = 2;

} // verus!
