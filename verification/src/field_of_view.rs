//! Recursive shadowcasting: the integer geometry of the eight octants and the
//! bookkeeping of the tiles seen from an observer.

use vstd::prelude::*;

use crate::collections::{lists_distances, no_distances, tile_distances, tile_key, TileDistances};
use crate::utils::{
    cell_center, grid_pos_to_idx, grid_pos_to_idx_spec, grid_to_translation, in_bounds,
    square_distance_spec, tile_index, translatable, GridPosition, Translation,
};
use crate::GRID_BLOCK_SIZE;

verus! {

/// A rectangular world of tiles, stored row by row.
pub struct World {
    pub tiles: Vec<TileType>,
    pub width: i32,
    pub height: i32,
}

#[derive(Clone, Copy, PartialEq, Eq, Debug, Structural)]
pub enum TileType {
    Transparent,
    Opaque,
}

/// The tile that a character of a map describes.
pub open spec fn tile_of_char(c: char) -> TileType {
    if c == 'o' {
        TileType::Opaque
    } else {
        TileType::Transparent
    }
}

/// The text that shows a tile.
pub open spec fn tile_symbol(t: TileType) -> Seq<char> {
    match t {
        TileType::Opaque => "o"@,
        TileType::Transparent => "_"@,
    }
}

/// Showing the tile that a map character describes gives that character
/// back.
pub proof fn lemma_tile_symbol_round_trip(c: char)
    requires
        c == 'o' || c == '_',
    ensures
        tile_symbol(tile_of_char(c)) == seq![c],
{
    reveal_strlit("o");
    reveal_strlit("_");
}

impl TileType {
    /// `'o'` is an opaque tile, `'_'` a transparent one; no other character
    /// describes a tile.
    pub fn from(value: &char) -> (r: TileType)
        requires
            *value == 'o' || *value == '_',
        ensures
            r == tile_of_char(*value),
    {
        match *value {
            'o' => TileType::Opaque,
            _ => TileType::Transparent,
        }
    }

    /// The character that shows the tile: `o` for opaque, `_` for
    /// transparent.
    pub fn to_string(&self) -> (r: String)
        ensures
            r@ == tile_symbol(*self),
    {
        match self {
            TileType::Opaque => "o".to_owned(),
            TileType::Transparent => "_".to_owned(),
        }
    }
}

/// Pivots are oriented along the game world, which also aligns with
/// `Octant::NorthOfEast`.
#[derive(Clone, Copy, PartialEq, Eq, Debug, Structural)]
pub enum Pivot {
    _Center,
    TopRight,
    BottomRight,
    BottomLeft,
    TopLeft,
}

/// Offset of a pivot from the centre of its tile, in world units.
pub open spec fn pivot_offset(p: Pivot) -> (int, int) {
    let h = GRID_BLOCK_SIZE / 2;
    match p {
        Pivot::_Center => (0, 0),
        Pivot::TopRight => (h as int, h as int),
        Pivot::BottomRight => (h as int, -h),
        Pivot::BottomLeft => (-h, -h),
        Pivot::TopLeft => (-h, h as int),
    }
}

/// The pivot of a tile lies in `i32` range.
pub open spec fn pivot_in_range(p: Pivot, tile: GridPosition) -> bool {
    &&& translatable(tile)
    &&& i32::MIN <= cell_center(tile.x as int) + pivot_offset(p).0 <= i32::MAX
    &&& i32::MIN <= cell_center(tile.y as int) + pivot_offset(p).1 <= i32::MAX
}

pub open spec fn flip_x_spec(p: Pivot) -> Pivot {
    match p {
        Pivot::_Center => Pivot::_Center,
        Pivot::TopRight => Pivot::TopLeft,
        Pivot::BottomRight => Pivot::BottomLeft,
        Pivot::BottomLeft => Pivot::BottomRight,
        Pivot::TopLeft => Pivot::TopRight,
    }
}

pub open spec fn flip_y_spec(p: Pivot) -> Pivot {
    match p {
        Pivot::_Center => Pivot::_Center,
        Pivot::TopRight => Pivot::BottomRight,
        Pivot::BottomRight => Pivot::TopRight,
        Pivot::BottomLeft => Pivot::TopLeft,
        Pivot::TopLeft => Pivot::BottomLeft,
    }
}

impl Pivot {
    /// World coordinates of the pivot of a tile: the centre of the tile moved
    /// by half a cell on each axis as the pivot says.
    pub fn abs_coords(&self, tile_coords: &GridPosition) -> (r: Translation)
        requires
            pivot_in_range(*self, *tile_coords),
        ensures
            r.x == cell_center(tile_coords.x as int) + pivot_offset(*self).0,
            r.y == cell_center(tile_coords.y as int) + pivot_offset(*self).1,
            r.z == 2,
    {
        let translation = grid_to_translation(*tile_coords);

        match self {
            Pivot::_Center => translation,
            Pivot::TopRight => Translation {
                x: translation.x + GRID_BLOCK_SIZE / 2,
                y: translation.y + GRID_BLOCK_SIZE / 2,
                z: translation.z,
            },
            Pivot::BottomRight => Translation {
                x: translation.x + GRID_BLOCK_SIZE / 2,
                y: translation.y - GRID_BLOCK_SIZE / 2,
                z: translation.z,
            },
            Pivot::BottomLeft => Translation {
                x: translation.x - GRID_BLOCK_SIZE / 2,
                y: translation.y - GRID_BLOCK_SIZE / 2,
                z: translation.z,
            },
            Pivot::TopLeft => Translation {
                x: translation.x - GRID_BLOCK_SIZE / 2,
                y: translation.y + GRID_BLOCK_SIZE / 2,
                z: translation.z,
            },
        }
    }

    /// Mirrors the pivot across the vertical axis of its tile.
    pub fn flip_x(&self) -> (r: Pivot)
        ensures
            r == flip_x_spec(*self),
            pivot_offset(r).0 == -pivot_offset(*self).0,
            pivot_offset(r).1 == pivot_offset(*self).1,
    {
        match self {
            Pivot::_Center => Pivot::_Center,
            Pivot::TopRight => Pivot::TopLeft,
            Pivot::BottomRight => Pivot::BottomLeft,
            Pivot::BottomLeft => Pivot::BottomRight,
            Pivot::TopLeft => Pivot::TopRight,
        }
    }

    /// Mirrors the pivot across the horizontal axis of its tile.
    pub fn flip_y(&self) -> (r: Pivot)
        ensures
            r == flip_y_spec(*self),
            pivot_offset(r).0 == pivot_offset(*self).0,
            pivot_offset(r).1 == -pivot_offset(*self).1,
    {
        match self {
            Pivot::_Center => Pivot::_Center,
            Pivot::TopRight => Pivot::BottomRight,
            Pivot::BottomRight => Pivot::TopRight,
            Pivot::BottomLeft => Pivot::TopLeft,
            Pivot::TopLeft => Pivot::BottomLeft,
        }
    }
}

/// Flipping a pivot twice along the same axis gives it back, and the two
/// flips can be made in either order.
pub proof fn lemma_flips_are_involutions_that_commute(p: Pivot)
    ensures
        flip_x_spec(flip_x_spec(p)) == p,
        flip_y_spec(flip_y_spec(p)) == p,
        flip_x_spec(flip_y_spec(p)) == flip_y_spec(flip_x_spec(p)),
{
}

/// A pivot is determined by its offset from the centre of the tile.
pub proof fn lemma_pivot_offset_injective(p: Pivot, q: Pivot)
    ensures
        pivot_offset(p) == pivot_offset(q) ==> p == q,
{
}

/// 4\33333|22222/1
/// 44\3333|2222/11
/// 444\333|222/111
/// 4444\33|22/1111
/// 44444\3|2/11111
/// ------@_@------
/// 55555/6|7\88888
/// 5555/66|77\8888
/// 555/666|777\888
/// 55/6666|7777\88
/// 5/66666|77777\8
#[derive(Clone, Copy, PartialEq, Eq, Debug, Structural)]
pub enum Octant {
    NorthOfEast,
    EastOfNorth,
    WestOfNorth,
    NorthOfWest,
    SouthOfWest,
    WestOfSouth,
    EastOfSouth,
    SouthOfEast,
}

/// In these octants the scan lines are columns: the depth is measured along
/// x and a scan line runs along y. In the others it is the other way round.
pub open spec fn depth_along_x(o: Octant) -> bool {
    match o {
        Octant::NorthOfEast | Octant::NorthOfWest | Octant::SouthOfWest | Octant::SouthOfEast => true,
        _ => false,
    }
}

/// Direction of the octant on the x and y axes.
pub open spec fn octant_signs(o: Octant) -> (int, int) {
    match o {
        Octant::NorthOfEast => (1, 1),
        Octant::EastOfNorth => (1, 1),
        Octant::WestOfNorth => (-1, 1),
        Octant::NorthOfWest => (-1, 1),
        Octant::SouthOfWest => (-1, -1),
        Octant::WestOfSouth => (-1, -1),
        Octant::EastOfSouth => (1, -1),
        Octant::SouthOfEast => (1, -1),
    }
}

/// The cell `offset` cells along the scan line at `depth` from the observer.
pub open spec fn scan_line_point_spec(o: Octant, observer: GridPosition, depth: int, offset: int) -> (
    int,
    int,
) {
    let (sx, sy) = octant_signs(o);
    if depth_along_x(o) {
        (observer.x + sx * depth, observer.y + sy * offset)
    } else {
        (observer.x + sx * offset, observer.y + sy * depth)
    }
}

/// One step along a scan line, away from the octant's first edge.
pub open spec fn scan_step(o: Octant) -> (int, int) {
    let (sx, sy) = octant_signs(o);
    if depth_along_x(o) {
        (0, sy)
    } else {
        (sx, 0)
    }
}

pub open spec fn get_adjusted_pivot_spec(o: Octant, p: Pivot) -> Pivot {
    match o {
        Octant::NorthOfEast => p,
        Octant::EastOfNorth => flip_y_spec(flip_x_spec(p)),
        Octant::WestOfNorth => flip_y_spec(p),
        Octant::NorthOfWest => flip_x_spec(p),
        Octant::SouthOfWest => flip_y_spec(flip_x_spec(p)),
        Octant::WestOfSouth => p,
        Octant::EastOfSouth => flip_x_spec(p),
        Octant::SouthOfEast => flip_y_spec(p),
    }
}

/// How an octant mirrors a pivot's offset from the centre of its tile, on
/// the x and on the y axis. In the octants scanned by columns the offset is
/// turned towards the octant's own direction; in those scanned by rows it is
/// turned the opposite way on both axes.
pub open spec fn pivot_mirror(o: Octant) -> (int, int) {
    let (sx, sy) = octant_signs(o);
    if depth_along_x(o) {
        (sx, sy)
    } else {
        (-sx, -sy)
    }
}

/// In every octant the adjusted pivot is the pivot mirrored as the octant
/// says: its offset is the pivot's offset times the octant's signs. Since a
/// pivot is determined by its offset, this fixes the adjusted pivot.
pub proof fn lemma_adjusted_pivot_mirrors(o: Octant, p: Pivot)
    ensures
        pivot_offset(get_adjusted_pivot_spec(o, p)) == (pivot_mirror(o).0 * pivot_offset(p).0,
        pivot_mirror(o).1 * pivot_offset(p).1),
{
    match o {
        Octant::NorthOfEast => {
            assert(pivot_mirror(o) == (1int, 1int));
            match p {
                Pivot::_Center => {},
                Pivot::TopRight => {},
                Pivot::BottomRight => {},
                Pivot::BottomLeft => {},
                Pivot::TopLeft => {},
            }
        },
        Octant::EastOfNorth => {
            assert(pivot_mirror(o) == (-1int, -1int));
            match p {
                Pivot::_Center => {},
                Pivot::TopRight => {},
                Pivot::BottomRight => {},
                Pivot::BottomLeft => {},
                Pivot::TopLeft => {},
            }
        },
        Octant::WestOfNorth => {
            assert(pivot_mirror(o) == (1int, -1int));
            match p {
                Pivot::_Center => {},
                Pivot::TopRight => {},
                Pivot::BottomRight => {},
                Pivot::BottomLeft => {},
                Pivot::TopLeft => {},
            }
        },
        Octant::NorthOfWest => {
            assert(pivot_mirror(o) == (-1int, 1int));
            match p {
                Pivot::_Center => {},
                Pivot::TopRight => {},
                Pivot::BottomRight => {},
                Pivot::BottomLeft => {},
                Pivot::TopLeft => {},
            }
        },
        Octant::SouthOfWest => {
            assert(pivot_mirror(o) == (-1int, -1int));
            match p {
                Pivot::_Center => {},
                Pivot::TopRight => {},
                Pivot::BottomRight => {},
                Pivot::BottomLeft => {},
                Pivot::TopLeft => {},
            }
        },
        Octant::WestOfSouth => {
            assert(pivot_mirror(o) == (1int, 1int));
            match p {
                Pivot::_Center => {},
                Pivot::TopRight => {},
                Pivot::BottomRight => {},
                Pivot::BottomLeft => {},
                Pivot::TopLeft => {},
            }
        },
        Octant::EastOfSouth => {
            assert(pivot_mirror(o) == (-1int, 1int));
            match p {
                Pivot::_Center => {},
                Pivot::TopRight => {},
                Pivot::BottomRight => {},
                Pivot::BottomLeft => {},
                Pivot::TopLeft => {},
            }
        },
        Octant::SouthOfEast => {
            assert(pivot_mirror(o) == (1int, -1int));
            match p {
                Pivot::_Center => {},
                Pivot::TopRight => {},
                Pivot::BottomRight => {},
                Pivot::BottomLeft => {},
                Pivot::TopLeft => {},
            }
        },
    }
}

impl Octant {
    /// The cell `offset` cells along the scan line at `depth` from the
    /// observer; `offset` is the depth times the slope, rounded towards zero.
    pub fn scan_line_point(&self, observer: GridPosition, depth: i32, offset: i32) -> (r:
        GridPosition)
        requires
            i32::MIN <= scan_line_point_spec(*self, observer, depth as int, offset as int).0
                <= i32::MAX,
            i32::MIN <= scan_line_point_spec(*self, observer, depth as int, offset as int).1
                <= i32::MAX,
        ensures
            (r.x as int, r.y as int) == scan_line_point_spec(
                *self,
                observer,
                depth as int,
                offset as int,
            ),
    {
        match self {
            Octant::NorthOfEast => GridPosition { x: observer.x + depth, y: observer.y + offset },
            Octant::EastOfNorth => GridPosition { x: observer.x + offset, y: observer.y + depth },
            Octant::WestOfNorth => GridPosition { x: observer.x - offset, y: observer.y + depth },
            Octant::NorthOfWest => GridPosition { x: observer.x - depth, y: observer.y + offset },
            Octant::SouthOfWest => GridPosition { x: observer.x - depth, y: observer.y - offset },
            Octant::WestOfSouth => GridPosition { x: observer.x - offset, y: observer.y - depth },
            Octant::EastOfSouth => GridPosition { x: observer.x + offset, y: observer.y - depth },
            Octant::SouthOfEast => GridPosition { x: observer.x + depth, y: observer.y - offset },
        }
    }

    /// The pivot that plays, in this octant, the part that `pivot` plays in
    /// `NorthOfEast`.
    pub fn get_adjusted_pivot(&self, pivot: Pivot) -> (r: Pivot)
        ensures
            r == get_adjusted_pivot_spec(*self, pivot),
            pivot_offset(r) == (pivot_mirror(*self).0 * pivot_offset(pivot).0, pivot_mirror(
                *self,
            ).1 * pivot_offset(pivot).1),
    {
        proof {
            lemma_adjusted_pivot_mirrors(*self, pivot);
        }
        match self {
            Octant::NorthOfEast => pivot,
            Octant::EastOfNorth => pivot.flip_x().flip_y(),
            Octant::WestOfNorth => pivot.flip_y(),
            Octant::NorthOfWest => pivot.flip_x(),
            Octant::SouthOfWest => pivot.flip_x().flip_y(),
            Octant::WestOfSouth => pivot,
            Octant::EastOfSouth => pivot.flip_x(),
            Octant::SouthOfEast => pivot.flip_y(),
        }
    }

    /// The rise and the run of the slope from the observer to a pivot of a
    /// tile, in world units: the difference along the scan line over the
    /// difference along the depth. The slope is the absolute value of their
    /// quotient.
    pub fn slope_parts(&self, observer: &GridPosition, tile: &GridPosition, pivot: Pivot) -> (r: (
        i64,
        i64,
    ))
        requires
            pivot_in_range(get_adjusted_pivot_spec(*self, pivot), *tile),
            translatable(*observer),
        ensures
            ({
                let off = pivot_offset(get_adjusted_pivot_spec(*self, pivot));
                let dx = cell_center(tile.x as int) + off.0 - cell_center(observer.x as int);
                let dy = cell_center(tile.y as int) + off.1 - cell_center(observer.y as int);
                if depth_along_x(*self) {
                    r.0 == dy && r.1 == dx
                } else {
                    r.0 == dx && r.1 == dy
                }
            }),
    {
        let pivot = self.get_adjusted_pivot(pivot);
        let target = pivot.abs_coords(tile);
        let observer = grid_to_translation(*observer);
        let dx = target.x as i64 - observer.x as i64;
        let dy = target.y as i64 - observer.y as i64;

        match self {
            Octant::NorthOfEast | Octant::NorthOfWest | Octant::SouthOfWest | Octant::SouthOfEast => (
                dy,
                dx,
            ),
            Octant::EastOfNorth | Octant::WestOfNorth | Octant::WestOfSouth | Octant::EastOfSouth => (
                dx,
                dy,
            ),
        }
    }

    /// The next tile along the scan line.
    pub fn get_next_tile_on_scanline(&self, tile: &GridPosition) -> (r: GridPosition)
        requires
            i32::MIN <= tile.x + scan_step(*self).0 <= i32::MAX,
            i32::MIN <= tile.y + scan_step(*self).1 <= i32::MAX,
        ensures
            r.x == tile.x + scan_step(*self).0,
            r.y == tile.y + scan_step(*self).1,
    {
        match self {
            Octant::NorthOfEast | Octant::NorthOfWest => GridPosition { x: tile.x, y: tile.y + 1 },
            Octant::EastOfNorth | Octant::EastOfSouth => GridPosition { x: tile.x + 1, y: tile.y },
            Octant::WestOfNorth | Octant::WestOfSouth => GridPosition { x: tile.x - 1, y: tile.y },
            Octant::SouthOfWest | Octant::SouthOfEast => GridPosition { x: tile.x, y: tile.y - 1 },
        }
    }
}

/// Stepping along a scan line advances the offset by one: the next tile after
/// the point at offset `k` is the point at offset `k + 1`.
pub proof fn lemma_next_tile_advances_offset(o: Octant, observer: GridPosition, depth: int, k: int)
    ensures
        ({
            let p = scan_line_point_spec(o, observer, depth, k);
            let q = scan_line_point_spec(o, observer, depth, k + 1);
            q == (p.0 + scan_step(o).0, p.1 + scan_step(o).1)
        }),
{
    let (sx, sy) = octant_signs(o);
    assert(sx * (k + 1) == sx * k + sx) by (nonlinear_arith);
    assert(sy * (k + 1) == sy * k + sy) by (nonlinear_arith);
}

/// Every point of a scan line lies `depth` cells from the observer along the
/// depth axis of the octant, on the octant's side.
pub proof fn lemma_scan_line_at_depth(o: Octant, observer: GridPosition, depth: int, k: int)
    ensures
        ({
            let p = scan_line_point_spec(o, observer, depth, k);
            if depth_along_x(o) {
                p.0 - observer.x == octant_signs(o).0 * depth
            } else {
                p.1 - observer.y == octant_signs(o).1 * depth
            }
        }),
{
}

/// What the scan of one row does at a tile, given the tile before it.
#[derive(Clone, Copy, PartialEq, Eq, Debug, Structural)]
pub enum ScanAction {
    /// The first tile of the row: nothing to compare with.
    Begin,
    /// The first opaque tile after a transparent one: the row beyond is
    /// scanned up to the edge of this tile.
    ScanBeyondUpToHere,
    /// The first transparent tile after an opaque one: the scan of the rows
    /// beyond starts at the edge of this tile.
    RaiseMinSlope,
    /// Nothing changes.
    Continue,
}

/// The decision that the scan of a row makes at each tile.
pub fn scan_action(is_first: bool, previous: Option<TileType>, current: Option<TileType>) -> (r:
    ScanAction)
    ensures
        r == (if is_first {
            ScanAction::Begin
        } else if previous == Some(TileType::Transparent) && current == Some(TileType::Opaque) {
            ScanAction::ScanBeyondUpToHere
        } else if previous == Some(TileType::Opaque) && current == Some(TileType::Transparent) {
            ScanAction::RaiseMinSlope
        } else {
            ScanAction::Continue
        }),
{
    match is_first {
        false => match (previous, current) {
            (Some(TileType::Transparent), Some(TileType::Opaque)) => ScanAction::ScanBeyondUpToHere,
            (Some(TileType::Opaque), Some(TileType::Transparent)) => ScanAction::RaiseMinSlope,
            (_, _) => ScanAction::Continue,
        },
        true => ScanAction::Begin,
    }
}

/// The cell of the last player whose cell is known, or `current` when no
/// player's is.
pub open spec fn last_player_cell(cells: Seq<Option<GridPosition>>, current: GridPosition) -> GridPosition
    decreases cells.len(),
{
    if cells.len() == 0 {
        current
    } else {
        match cells.last() {
            Some(p) => p,
            None => last_player_cell(cells.drop_last(), current),
        }
    }
}

/// The observer ends on the cell of the last player whose cell is known: at
/// `cells[k]` when that is known and no later one is, and where it was when
/// none is known.
pub proof fn lemma_last_player_cell(cells: Seq<Option<GridPosition>>, current: GridPosition)
    ensures
        forall|k: int|
            0 <= k < cells.len() && (#[trigger] cells[k]) is Some && (forall|j: int|
                k < j < cells.len() ==> cells[j] is None) ==> last_player_cell(cells, current)
                == cells[k]->0,
        (forall|j: int| 0 <= j < cells.len() ==> cells[j] is None) ==> last_player_cell(cells, current)
            == current,
    decreases cells.len(),
{
    if cells.len() > 0 {
        let init = cells.drop_last();
        lemma_last_player_cell(init, current);
        let n = cells.len() - 1;
        assert forall|k: int|
            0 <= k < cells.len() && (#[trigger] cells[k]) is Some && (forall|j: int|
                k < j < cells.len() ==> cells[j] is None) implies last_player_cell(cells, current)
            == cells[k]->0 by {
            if k < n {
                assert(cells[n] is None);
                assert(init[k] == cells[k]);
                assert forall|j: int| k < j < init.len() implies init[j] is None by {
                    assert(init[j] == cells[j]);
                }
            }
        }
        if forall|j: int| 0 <= j < cells.len() ==> cells[j] is None {
            assert(cells[n] is None);
            assert forall|j: int| 0 <= j < init.len() implies init[j] is None by {
                assert(init[j] == cells[j]);
            }
        }
    }
}

/// The squared distance at which a tile was seen, if it was.
pub open spec fn seen_at(visible: Map<(i32, i32), i32>, tile: GridPosition) -> Option<i32> {
    if visible.contains_key(tile_key(tile)) {
        Some(visible[tile_key(tile)])
    } else {
        None
    }
}

/// The tiles seen from an observer, each with its squared distance.
pub struct Visibility {
    _is_omniscient: bool,
    max_visible_distance: i32,
    visible_tiles: TileDistances,
    pub observer: GridPosition,
}

impl Visibility {
    /// The tiles seen so far, with their squared distances.
    pub closed spec fn visible(&self) -> Map<(i32, i32), i32> {
        tile_distances(self.visible_tiles)
    }

    /// Where the observer stands.
    pub closed spec fn observer_at(&self) -> GridPosition {
        self.observer
    }

    pub closed spec fn max_distance(&self) -> i32 {
        self.max_visible_distance
    }

    pub closed spec fn omniscient(&self) -> bool {
        self._is_omniscient
    }

    pub fn new(is_omniscient: bool, max_visible_distance: i32) -> (r: Visibility)
        ensures
            r.visible() == no_distances(),
            r.max_distance() == max_visible_distance,
            r.omniscient() == is_omniscient,
            r.observer_at() == (GridPosition { x: 0, y: 0 }),
    {
        Visibility {
            _is_omniscient: is_omniscient,
            max_visible_distance,
            visible_tiles: TileDistances::new(),
            observer: GridPosition { x: 0, y: 0 },
        }
    }

    /// How far the observer can see.
    pub fn max_visible_distance(&self) -> (r: i32)
        ensures
            r == self.max_distance(),
    {
        self.max_visible_distance
    }

    /// Forgets every tile seen so far.
    pub fn drain_visible_tiles(&mut self)
        ensures
            final(self).visible() == no_distances(),
            final(self).max_distance() == old(self).max_distance(),
            final(self).omniscient() == old(self).omniscient(),
            final(self).observer_at() == old(self).observer_at(),
    {
        self.visible_tiles.clear();
    }

    /// The type of a tile; a tile out of the world's bounds is opaque.
    pub fn get_tile_type(&self, world: &World, tile_coords: &GridPosition) -> (r: Option<TileType>)
        requires
            in_bounds(*tile_coords, world.width as int, world.height as int) ==> tile_index(
                *tile_coords,
                world.width as int,
            ) <= i32::MAX && tile_index(*tile_coords, world.width as int) < world.tiles.len(),
        ensures
            r == (match grid_pos_to_idx_spec(*tile_coords, world.width, world.height) {
                Some(idx) => Some(world.tiles@[idx as int]),
                None => Some(TileType::Opaque),
            }),
    {
        let maybe_idx = grid_pos_to_idx(tile_coords, world.width, world.height);

        match maybe_idx {
            Some(idx) => Some(world.tiles[idx]),
            // This allows out-of-bounds to become Opaque
            None => Some(TileType::Opaque),
        }
    }

    /// The observer sees its own tile, at distance 0.
    pub fn add_observer(&mut self)
        ensures
            final(self).visible() == old(self).visible().insert(tile_key(old(self).observer_at()), 0),
            final(self).max_distance() == old(self).max_distance(),
            final(self).omniscient() == old(self).omniscient(),
            final(self).observer_at() == old(self).observer_at(),
    {
        self.visible_tiles.insert(self.observer, 0);
    }

    /// Records a tile as seen, with its squared distance from the observer.
    pub fn mark_visible(&mut self, tile: GridPosition)
        requires
            i32::MIN <= tile.x - old(self).observer_at().x <= i32::MAX,
            i32::MIN <= tile.y - old(self).observer_at().y <= i32::MAX,
            square_distance_spec(old(self).observer_at(), tile) <= i32::MAX,
        ensures
            final(self).visible() == old(self).visible().insert(
                tile_key(tile),
                square_distance_spec(old(self).observer_at(), tile) as i32,
            ),
            final(self).max_distance() == old(self).max_distance(),
            final(self).omniscient() == old(self).omniscient(),
            final(self).observer_at() == old(self).observer_at(),
    {
        let d = self.observer.square_distance(tile);
        self.visible_tiles.insert(tile, d);
    }

    /// The tile lies at or beyond the distance the observer can see.
    pub fn is_out_of_range(&self, tile: &GridPosition) -> (r: bool)
        requires
            i32::MIN <= tile.x - self.observer_at().x <= i32::MAX,
            i32::MIN <= tile.y - self.observer_at().y <= i32::MAX,
            square_distance_spec(self.observer_at(), *tile) <= i32::MAX,
            self.max_distance() * self.max_distance() <= i32::MAX,
        ensures
            r == (square_distance_spec(self.observer_at(), *tile) >= self.max_distance()
                * self.max_distance()),
    {
        let m = self.max_visible_distance;
        assert(m * m >= 0) by (nonlinear_arith);
        self.observer.square_distance(*tile) >= m * m
    }

    /// The observer moves to the cell of each player in turn whose cell is
    /// known: it ends on the last such cell, and stays where it was when no
    /// player's cell is known.
    pub fn observe_players(&mut self, player_cells: &Vec<Option<GridPosition>>)
        ensures
            final(self).observer_at() == last_player_cell(player_cells@, old(self).observer_at()),
            forall|k: int|
                0 <= k < player_cells@.len() && (#[trigger] player_cells@[k]) is Some && (forall|j: int|
                    k < j < player_cells@.len() ==> player_cells@[j] is None) ==> final(self).observer_at()
                    == player_cells@[k]->0,
            (forall|j: int| 0 <= j < player_cells@.len() ==> player_cells@[j] is None)
                ==> final(self).observer_at() == old(self).observer_at(),
            final(self).visible() == old(self).visible(),
            final(self).max_distance() == old(self).max_distance(),
            final(self).omniscient() == old(self).omniscient(),
    {
        let n = player_cells.len();
        let mut i: usize = 0;
        while i < n
            invariant
                n == player_cells.len(),
                0 <= i <= n,
                self.observer == last_player_cell(player_cells@.take(i as int), old(self).observer),
                tile_distances(self.visible_tiles) == tile_distances(old(self).visible_tiles),
                self.max_visible_distance == old(self).max_visible_distance,
                self._is_omniscient == old(self)._is_omniscient,
            decreases n - i,
        {
            proof {
                assert(player_cells@.take(i + 1).drop_last() =~= player_cells@.take(i as int));
            }
            match player_cells[i] {
                Some(p) => {
                    self.observer = p;
                },
                None => {},
            }
            i = i + 1;
        }
        proof {
            assert(player_cells@.take(n as int) =~= player_cells@);
            lemma_last_player_cell(player_cells@, old(self).observer);
        }
    }

    /// The squared distance at which a tile was seen, if it was.
    pub fn seen_distance(&self, tile: &GridPosition) -> (r: Option<i32>)
        ensures
            r == seen_at(self.visible(), *tile),
    {
        self.visible_tiles.get(tile)
    }

    /// The tiles seen so far with their squared distances, each tile once,
    /// in no particular order.
    pub fn visible_tiles(&self) -> (r: Vec<(GridPosition, i32)>)
        ensures
            lists_distances(r@, self.visible()),
    {
        self.visible_tiles.entries()
    }
}

} // verus!
