//! The hash collections that the field of view and the wall grid keep their
//! tiles in: `bevy::utils::HashMap` and `bevy::utils::HashSet`. Each is held in a
//! struct whose contents are named by a spec function; the methods below are
//! the only ways the library touches them.

use vstd::prelude::*;

use crate::utils::GridPosition;

verus! {

/// Squared distances of tiles, keyed by tile, in a `bevy::utils::HashMap`.
#[verifier::external_body]
pub struct TileDistances {
    map: bevy::utils::HashMap<GridPosition, i32>,
}

/// What a `TileDistances` holds: the tile `(x, y)` maps to its distance.
pub uninterp spec fn tile_distances(m: TileDistances) -> Map<(i32, i32), i32>;

/// The key under which a tile is held.
pub open spec fn tile_key(p: GridPosition) -> (i32, i32) {
    (p.x, p.y)
}

/// The map that holds no tile.
pub open spec fn no_distances() -> Map<(i32, i32), i32> {
    Map::empty()
}

/// The set that holds no tile.
pub open spec fn no_tiles() -> Set<(i32, i32)> {
    Set::empty()
}

/// `v` lists the entries of `m`, each once, in some order: each listed
/// entry is held, each held tile is listed, and no tile is listed twice.
pub open spec fn lists_distances(v: Seq<(GridPosition, i32)>, m: Map<(i32, i32), i32>) -> bool {
    &&& forall|i: int|
        0 <= i < v.len() ==> m.contains_key(tile_key(#[trigger] v[i].0)) && m[tile_key(v[i].0)]
            == v[i].1
    &&& forall|k: (i32, i32)|
        m.contains_key(k) ==> exists|i: int| 0 <= i < v.len() && #[trigger] tile_key(v[i].0) == k
    &&& forall|i: int, j: int|
        0 <= i < j < v.len() ==> tile_key(#[trigger] v[i].0) != tile_key(#[trigger] v[j].0)
}

/// `v` lists the tiles of `s`, each once, in some order.
pub open spec fn lists_tiles(v: Seq<GridPosition>, s: Set<(i32, i32)>) -> bool {
    &&& forall|i: int| 0 <= i < v.len() ==> s.contains(tile_key(#[trigger] v[i]))
    &&& forall|k: (i32, i32)|
        s.contains(k) ==> exists|i: int| 0 <= i < v.len() && #[trigger] tile_key(v[i]) == k
    &&& forall|i: int, j: int|
        0 <= i < j < v.len() ==> tile_key(#[trigger] v[i]) != tile_key(#[trigger] v[j])
}

impl TileDistances {
    /// `HashMap::default`: an empty map.
    #[verifier::external_body]
    pub(crate) fn new() -> (r: TileDistances)
        ensures
            tile_distances(r) == no_distances(),
    {
        TileDistances { map: bevy::utils::HashMap::default() }
    }

    /// `HashMap::insert`: the tile now maps to `distance`; every other tile
    /// keeps its entry.
    #[verifier::external_body]
    pub(crate) fn insert(&mut self, tile: GridPosition, distance: i32)
        ensures
            tile_distances(*final(self)) == tile_distances(*old(self)).insert(
                tile_key(tile),
                distance,
            ),
    {
        self.map.insert(tile, distance);
    }

    /// `HashMap::drain`, with the draining iterator dropped at once: the map
    /// is left empty.
    #[verifier::external_body]
    pub(crate) fn clear(&mut self)
        ensures
            tile_distances(*final(self)) == no_distances(),
    {
        self.map.drain();
    }

    /// `HashMap::get`: the distance held for the tile, if any.
    #[verifier::external_body]
    pub(crate) fn get(&self, tile: &GridPosition) -> (r: Option<i32>)
        ensures
            r == (if tile_distances(*self).contains_key(tile_key(*tile)) {
                Some(tile_distances(*self)[tile_key(*tile)])
            } else {
                None
            }),
    {
        self.map.get(tile).copied()
    }

    /// `HashMap::iter`, each entry copied out, in the map's own order, which
    /// the contract leaves open.
    #[verifier::external_body]
    pub(crate) fn entries(&self) -> (r: Vec<(GridPosition, i32)>)
        ensures
            lists_distances(r@, tile_distances(*self)),
    {
        self.map.iter().map(|(tile, distance)| (*tile, *distance)).collect()
    }
}

/// A set of tiles in a `bevy::utils::HashSet`.
#[verifier::external_body]
pub struct TileSet {
    set: bevy::utils::HashSet<GridPosition>,
}

/// What a `TileSet` holds.
pub uninterp spec fn tile_set(s: TileSet) -> Set<(i32, i32)>;

impl TileSet {
    /// `HashSet::default`: an empty set.
    #[verifier::external_body]
    pub(crate) fn new() -> (r: TileSet)
        ensures
            tile_set(r) == no_tiles(),
    {
        TileSet { set: bevy::utils::HashSet::default() }
    }

    /// `HashSet::insert`: the tile is now in the set.
    #[verifier::external_body]
    pub(crate) fn insert(&mut self, tile: GridPosition)
        ensures
            tile_set(*final(self)) == tile_set(*old(self)).insert(tile_key(tile)),
    {
        self.set.insert(tile);
    }

    /// `HashSet::iter`, each tile copied out, in the set's own order, which
    /// the contract leaves open.
    #[verifier::external_body]
    pub(crate) fn entries(&self) -> (r: Vec<GridPosition>)
        ensures
            lists_tiles(r@, tile_set(*self)),
    {
        self.set.iter().copied().collect()
    }
}

/// A set of tile indices in a `bevy::utils::HashSet`.
#[verifier::external_body]
pub struct IndexSet {
    set: bevy::utils::HashSet<usize>,
}

/// What an `IndexSet` holds.
pub uninterp spec fn index_set(s: IndexSet) -> Set<usize>;

impl IndexSet {
    /// `HashSet::default`: an empty set.
    #[verifier::external_body]
    pub(crate) fn new() -> (r: IndexSet)
        ensures
            index_set(r) == Set::<usize>::empty(),
    {
        IndexSet { set: bevy::utils::HashSet::default() }
    }

    /// `HashSet::insert`: the index is now in the set.
    #[verifier::external_body]
    pub(crate) fn insert(&mut self, idx: usize)
        ensures
            index_set(*final(self)) == index_set(*old(self)).insert(idx),
    {
        self.set.insert(idx);
    }

    /// `HashSet::contains`.
    #[verifier::external_body]
    pub(crate) fn contains(&self, idx: usize) -> (r: bool)
        ensures
            r == index_set(*self).contains(idx),
    {
        self.set.contains(&idx)
    }
}

} // verus!
