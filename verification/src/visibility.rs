//! The first take on the field of view, with the observer's world held by
//! reference: which tiles it can read and when a tile is trivially visible.

use vstd::prelude::*;

use crate::collections::{lists_tiles, no_tiles, tile_key, tile_set, TileSet};
use crate::field_of_view_2::World;
use crate::utils::GridPosition;

verus! {

#[derive(Clone, Copy, PartialEq, Eq, Debug, Structural)]
pub enum TileType {
    Transparent,
    Opaque,
}

impl TileType {
    /// `'o'` is an opaque tile, `'_'` a transparent one; no other character
    /// describes a tile.
    pub fn from(value: &char) -> (r: TileType)
        requires
            *value == 'o' || *value == '_',
        ensures
            r == (if *value == 'o' {
                TileType::Opaque
            } else {
                TileType::Transparent
            }),
    {
        match *value {
            'o' => TileType::Opaque,
            _ => TileType::Transparent,
        }
    }
}

#[derive(Clone, Copy, PartialEq, Eq, Debug, Structural)]
pub enum Pivot {
    Center,
    TopRight,
    BottomRight,
    BottomLeft,
    TopLeft,
}

/// The tile lies in the world: `[0, width)` and `[0, height)`.
pub open spec fn in_world(world: &World, tile: GridPosition) -> bool {
    0 <= tile.x < world.width && 0 <= tile.y < world.height
}

/// The index of a tile in this take: columns first.
pub open spec fn column_major_index(world: &World, tile: GridPosition) -> int {
    tile.x * world.width + tile.y
}

pub struct Visibility<'a> {
    world: &'a World,
    is_omniscient: bool,
    max_visible_distance: i32,
    visible_tiles: TileSet,
    observer: GridPosition,
}

impl<'a> Visibility<'a> {
    pub closed spec fn world_of(&self) -> &'a World {
        self.world
    }

    pub closed spec fn visible(&self) -> Set<(i32, i32)> {
        tile_set(self.visible_tiles)
    }

    pub closed spec fn observer_at(&self) -> GridPosition {
        self.observer
    }

    pub closed spec fn max_distance(&self) -> i32 {
        self.max_visible_distance
    }

    pub closed spec fn omniscient(&self) -> bool {
        self.is_omniscient
    }

    pub fn new(world: &'a World, is_omniscient: bool, max_visible_distance: i32) -> (r: Self)
        ensures
            r.world_of() == world,
            r.omniscient() == is_omniscient,
            r.max_distance() == max_visible_distance,
            r.visible() == no_tiles(),
            r.observer_at() == (GridPosition { x: 0, y: 0 }),
    {
        Visibility {
            world,
            is_omniscient,
            max_visible_distance,
            visible_tiles: TileSet::new(),
            observer: GridPosition { x: 0, y: 0 },
        }
    }

    pub fn observer(&self) -> (r: GridPosition)
        ensures
            r == self.observer_at(),
    {
        self.observer
    }

    pub fn max_visible_distance(&self) -> (r: i32)
        ensures
            r == self.max_distance(),
    {
        self.max_visible_distance
    }

    /// A tile is trivially visible in a world of one tile, when it is the
    /// observer's own tile, or when the observer is omniscient. The world must
    /// hold `width * height` tiles, at least one, the distance must be at
    /// least 1, and at least one of the two tiles must lie in the world.
    pub fn is_tile_visible(&self, observer_coords: &GridPosition, tile_coords: &GridPosition) -> (r: bool)
        requires
            self.world_of().tiles.len() >= 1,
            i32::MIN <= self.world_of().width * self.world_of().height <= i32::MAX,
            self.world_of().tiles.len() == ((self.world_of().width * self.world_of().height) as i32) as usize,
            self.max_distance() >= 1,
            in_world(self.world_of(), *observer_coords) || in_world(self.world_of(), *tile_coords),
        ensures
            r == (self.world_of().tiles.len() == 1 || *observer_coords == *tile_coords
                || self.omniscient()),
    {
        self.world.tiles.len() == 1 || *observer_coords == *tile_coords || self.is_omniscient
    }

    /// The type of an in-world tile.
    pub fn get_tile_type(&self, tile_coords: &GridPosition) -> (r: crate::field_of_view_2::TileType)
        requires
            in_world(self.world_of(), *tile_coords),
            column_major_index(self.world_of(), *tile_coords) <= i32::MAX,
            column_major_index(self.world_of(), *tile_coords) < self.world_of().tiles.len(),
        ensures
            r == self.world_of().tiles@[column_major_index(self.world_of(), *tile_coords)],
    {
        let idx = self.grid_coord_to_idx(tile_coords);
        self.world.tiles[idx]
    }

    /// The index of an in-world tile: its column times the width plus its
    /// row.
    pub fn grid_coord_to_idx(&self, tile_coords: &GridPosition) -> (r: usize)
        requires
            in_world(self.world_of(), *tile_coords),
            column_major_index(self.world_of(), *tile_coords) <= i32::MAX,
        ensures
            r == column_major_index(self.world_of(), *tile_coords),
    {
        let w = self.world.width;
        proof {
            vstd::arithmetic::mul::lemma_mul_nonnegative(tile_coords.x as int, w as int);
        }
        (tile_coords.x * w + tile_coords.y) as usize
    }

    /// The tile lies in the world.
    pub fn is_in_bounds(&self, tile_coords: &GridPosition) -> (r: bool)
        ensures
            r == in_world(self.world_of(), *tile_coords),
    {
        let x = tile_coords.x;
        let y = tile_coords.y;

        x >= 0 && y >= 0 && x < self.world.width && y < self.world.height
    }

    /// Records a tile as seen.
    pub fn mark_visible(&mut self, tile: GridPosition)
        ensures
            final(self).visible() == old(self).visible().insert(tile_key(tile)),
            final(self).world_of() == old(self).world_of(),
            final(self).observer_at() == old(self).observer_at(),
            final(self).max_distance() == old(self).max_distance(),
            final(self).omniscient() == old(self).omniscient(),
    {
        self.visible_tiles.insert(tile);
    }

    /// The tiles seen so far, each once, in no particular order.
    pub fn visible_tiles(&self) -> (r: Vec<GridPosition>)
        ensures
            lists_tiles(r@, self.visible()),
    {
        self.visible_tiles.entries()
    }
}

} // verus!
