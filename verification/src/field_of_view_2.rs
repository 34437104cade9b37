//! A second, column-by-column take on the field of view, of which only the
//! setup exists.

use vstd::prelude::*;

use crate::collections::{no_tiles, tile_set, TileSet};
use crate::utils::GridPosition;

verus! {

/// A rectangular world of tiles.
pub struct World {
    pub tiles: Vec<TileType>,
    pub width: i32,
    pub height: i32,
}

#[derive(Clone, Copy, PartialEq, Eq, Debug, Structural)]
pub enum TileType {
    Transparent,
    Opaque,
}

impl TileType {
    /// `'o'` is an opaque tile, `'_'` a transparent one; no other character
    /// describes a tile.
    pub fn from(value: &char) -> (r: TileType)
        requires
            *value == 'o' || *value == '_',
        ensures
            r == (if *value == 'o' {
                TileType::Opaque
            } else {
                TileType::Transparent
            }),
    {
        match *value {
            'o' => TileType::Opaque,
            _ => TileType::Transparent,
        }
    }
}

pub struct Visibility {
    is_omniscient: bool,
    max_visible_distance: i32,
    visible_tiles: TileSet,
    pub observer: GridPosition,
}

impl Visibility {
    /// The tiles seen so far.
    pub closed spec fn visible(&self) -> Set<(i32, i32)> {
        tile_set(self.visible_tiles)
    }

    pub closed spec fn observer_at(&self) -> GridPosition {
        self.observer
    }

    pub closed spec fn max_distance(&self) -> i32 {
        self.max_visible_distance
    }

    pub closed spec fn omniscient(&self) -> bool {
        self.is_omniscient
    }

    pub fn new(is_omniscient: bool, max_visible_distance: i32) -> (r: Visibility)
        ensures
            r.visible() == no_tiles(),
            r.observer_at() == (GridPosition { x: 0, y: 0 }),
            r.max_distance() == max_visible_distance,
            r.omniscient() == is_omniscient,
    {
        Visibility {
            is_omniscient,
            max_visible_distance,
            visible_tiles: TileSet::new(),
            observer: GridPosition { x: 0, y: 0 },
        }
    }

    /// Sets up a scan from the observer's column to the world's right edge.
    /// The scan never moves on to the next column, so it comes to an end only
    /// when there is no column to scan: when the observer stands right of the
    /// world. It changes nothing.
    pub fn calculate_vis(&mut self, world: &World, observer: GridPosition)
        requires
            i32::MIN <= world.width - observer.x,
            world.width - observer.x < 0,
        ensures
            *final(self) == *old(self),
    {
        let depth_curr: i32 = 0;
        let depth_max = world.width - observer.x;
        assert(!(depth_curr <= depth_max));
    }
}

} // verus!
