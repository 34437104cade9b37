//! Grid cells, world coordinates and tile indices.

use vstd::prelude::*;

use crate::{GRID_BLOCK_SIZE, GRID_CELL_COUNT};

verus! {

/// Rust's integer division: the quotient is rounded towards zero. (On the
/// right, `/` is the euclidean division of specifications.)
pub open spec fn trunc_div(a: int, b: int) -> int {
    if a >= 0 {
        a / b
    } else {
        -((-a) / b)
    }
}

/// A cell of the play field. On the play field cells are numbered from 1 to
/// `GRID_CELL_COUNT` on each axis; other values are plain coordinates.
#[derive(Clone, Copy, PartialEq, Eq, Hash, Debug, Structural)]
pub struct GridPosition {
    pub x: i32,
    pub y: i32,
}

/// The cell `(x, y)` lies on the play field.
pub open spec fn on_grid(x: int, y: int) -> bool {
    1 <= x <= GRID_CELL_COUNT && 1 <= y <= GRID_CELL_COUNT
}

/// Squared euclidean distance between two cells.
pub open spec fn square_distance_spec(a: GridPosition, b: GridPosition) -> int {
    (b.x - a.x) * (b.x - a.x) + (b.y - a.y) * (b.y - a.y)
}

impl GridPosition {
    /// The cell `(x, y)` if it lies on the play field.
    pub fn try_new(x: i32, y: i32) -> (r: Option<GridPosition>)
        ensures
            r == (if on_grid(x as int, y as int) {
                Some(GridPosition { x, y })
            } else {
                None
            }),
    {
        if 1 <= x && x <= GRID_CELL_COUNT && 1 <= y && y <= GRID_CELL_COUNT {
            Some(GridPosition { x, y })
        } else {
            None
        }
    }

    /// Squared euclidean distance to `other`.
    pub fn square_distance(&self, other: GridPosition) -> (r: i32)
        requires
            i32::MIN <= other.x - self.x <= i32::MAX,
            i32::MIN <= other.y - self.y <= i32::MAX,
            square_distance_spec(*self, other) <= i32::MAX,
        ensures
            r == square_distance_spec(*self, other),
    {
        let dx = other.x - self.x;
        let dy = other.y - self.y;
        assert(dx * dx >= 0 && dy * dy >= 0) by (nonlinear_arith);
        dx * dx + dy * dy
    }
}

/// A point in world space whose coordinates have been truncated to whole
/// world units.
#[derive(Clone, Copy, PartialEq, Eq, Debug, Structural)]
pub struct Translation {
    pub x: i32,
    pub y: i32,
    pub z: i32,
}

/// World coordinate of the centre of cell number `c` along one axis.
pub open spec fn cell_center(c: int) -> int {
    c * GRID_BLOCK_SIZE - GRID_BLOCK_SIZE / 2
}

/// Number of the cell that holds world coordinate `t` along one axis.
pub open spec fn cell_of(t: int) -> int {
    trunc_div(t, GRID_BLOCK_SIZE as int) + 1
}

/// The centre of a cell lies in `i32` range on both axes.
pub open spec fn translatable(p: GridPosition) -> bool {
    i32::MIN <= cell_center(p.x as int) && p.x * GRID_BLOCK_SIZE <= i32::MAX
        && i32::MIN <= cell_center(p.y as int) && p.y * GRID_BLOCK_SIZE <= i32::MAX
}

pub open spec fn grid_to_translation_spec(p: GridPosition) -> Translation {
    Translation { x: cell_center(p.x as int) as i32, y: cell_center(p.y as int) as i32, z: 2 }
}

pub open spec fn translation_to_grid_pos_spec(t: Translation) -> Option<GridPosition> {
    if on_grid(cell_of(t.x as int), cell_of(t.y as int)) {
        Some(GridPosition { x: cell_of(t.x as int) as i32, y: cell_of(t.y as int) as i32 })
    } else {
        None
    }
}

pub open spec fn snap_to_grid_spec(t: Translation) -> Option<Translation> {
    match translation_to_grid_pos_spec(t) {
        Some(p) => Some(grid_to_translation_spec(p)),
        None => None,
    }
}

/// Grid coordinates to world coordinates: the centre of the cell.
pub fn grid_to_translation(grid_pos: GridPosition) -> (r: Translation)
    requires
        translatable(grid_pos),
    ensures
        r == grid_to_translation_spec(grid_pos),
        r.x == cell_center(grid_pos.x as int),
        r.y == cell_center(grid_pos.y as int),
        r.z == 2,
{
    Translation {
        x: grid_pos.x * GRID_BLOCK_SIZE - GRID_BLOCK_SIZE / 2,
        y: grid_pos.y * GRID_BLOCK_SIZE - GRID_BLOCK_SIZE / 2,
        z: 2,
    }
}

/// World coordinates to grid coordinates: the cell that holds the point, if
/// it lies on the play field.
pub fn translation_to_grid_pos(translation: Translation) -> (r: Option<GridPosition>)
    ensures
        r == translation_to_grid_pos_spec(translation),
{
    let x = translation.x / GRID_BLOCK_SIZE + 1;
    let y = translation.y / GRID_BLOCK_SIZE + 1;
    GridPosition::try_new(x, y)
}

/// Snaps arbitrary coordinates to the centre of the grid cell that holds
/// them, if that cell lies on the play field.
pub fn snap_to_grid(translation: Translation) -> (r: Option<Translation>)
    ensures
        r == snap_to_grid_spec(translation),
{
    match translation_to_grid_pos(translation) {
        Some(p) => Some(grid_to_translation(p)),
        None => None,
    }
}

/// The tile `tile` lies in a world of `width` columns and `height` rows,
/// counted from 0.
pub open spec fn in_bounds(tile: GridPosition, width: int, height: int) -> bool {
    0 <= tile.x < width && 0 <= tile.y < height
}

/// Row-major index of an in-bounds tile.
pub open spec fn tile_index(tile: GridPosition, width: int) -> int {
    tile.y * width + tile.x
}

pub open spec fn grid_pos_to_idx_spec(tile: GridPosition, width: i32, height: i32) -> Option<usize> {
    if in_bounds(tile, width as int, height as int) {
        Some(tile_index(tile, width as int) as usize)
    } else {
        None
    }
}

/// The tile at row-major index `idx` of a world `width` columns wide.
pub open spec fn idx_to_grid_pos_spec(idx: usize, width: i32) -> GridPosition {
    GridPosition { x: (idx as int % width as int) as i32, y: (idx as int / width as int) as i32 }
}

/// Check if the tile is inside the bounds of the world: `[0, width)` and
/// `[0, height)`.
pub fn is_in_bounds(tile_coords: &GridPosition, world_width: i32, world_height: i32) -> (r: bool)
    ensures
        r == in_bounds(*tile_coords, world_width as int, world_height as int),
{
    let x = tile_coords.x;
    let y = tile_coords.y;

    x >= 0 && y >= 0 && x < world_width && y < world_height
}

/// Row-major index of a tile, or `None` for a tile out of bounds.
pub fn grid_pos_to_idx(tile_coords: &GridPosition, world_width: i32, world_height: i32) -> (r:
    Option<usize>)
    requires
        in_bounds(*tile_coords, world_width as int, world_height as int) ==> tile_index(
            *tile_coords,
            world_width as int,
        ) <= i32::MAX,
    ensures
        r == grid_pos_to_idx_spec(*tile_coords, world_width, world_height),
{
    if !is_in_bounds(tile_coords, world_width, world_height) {
        return None;
    }
    let w = world_width;
    proof {
        vstd::arithmetic::mul::lemma_mul_nonnegative(tile_coords.y as int, w as int);
    }
    Some((tile_coords.y * w + tile_coords.x) as usize)
}

/// Rust's remainder: it takes the sign of the dividend.
pub open spec fn trunc_rem(a: int, b: int) -> int {
    if a >= 0 {
        a % b
    } else {
        -((-a) % b)
    }
}

/// The tile at a row-major index. An index beyond `i32::MAX` wraps around
/// when it is taken as a coordinate.
pub fn _idx_to_grid_pos(idx: usize, world_width: i32, world_height: i32) -> (r: GridPosition)
    requires
        world_width >= 1,
        world_height >= 1,
        world_width * world_height <= usize::MAX,
        idx <= world_width * world_height,
    ensures
        r.x == trunc_rem((idx as i32) as int, world_width as int),
        r.y == trunc_div((idx as i32) as int, world_width as int),
        idx <= i32::MAX ==> r == idx_to_grid_pos_spec(idx, world_width),
{
    let i = idx as i32;
    let y = i / world_width;
    let x = i % world_width;

    GridPosition { x, y }
}

/// Converting a cell of the play field to world coordinates and back gives
/// the same cell.
pub proof fn lemma_grid_translation_round_trip(p: GridPosition)
    requires
        on_grid(p.x as int, p.y as int),
    ensures
        translatable(p),
        translation_to_grid_pos_spec(grid_to_translation_spec(p)) == Some(p),
{
    let t = grid_to_translation_spec(p);
    vstd::arithmetic::div_mod::lemma_fundamental_div_mod_converse(
        t.x as int,
        GRID_BLOCK_SIZE as int,
        p.x - 1,
        GRID_BLOCK_SIZE / 2,
    );
    vstd::arithmetic::div_mod::lemma_fundamental_div_mod_converse(
        t.y as int,
        GRID_BLOCK_SIZE as int,
        p.y - 1,
        GRID_BLOCK_SIZE / 2,
    );
}

/// Snapping is idempotent: a snapped point snaps to itself.
pub proof fn lemma_snap_to_grid_idempotent(t: Translation)
    ensures
        snap_to_grid_spec(t) matches Some(s) ==> snap_to_grid_spec(s) == Some(s),
{
    if let Some(p) = translation_to_grid_pos_spec(t) {
        lemma_grid_translation_round_trip(p);
    }
}

/// A snapped point stays in the cell of the point it was snapped from.
pub proof fn lemma_snap_to_grid_keeps_cell(t: Translation)
    ensures
        snap_to_grid_spec(t) matches Some(s) ==> translation_to_grid_pos_spec(s)
            == translation_to_grid_pos_spec(t),
{
    if let Some(p) = translation_to_grid_pos_spec(t) {
        lemma_grid_translation_round_trip(p);
    }
}

/// Reading back the tile of an index below `width * height` and indexing it
/// again gives the same index.
pub proof fn lemma_idx_round_trip(idx: usize, width: i32, height: i32)
    requires
        width >= 1,
        height >= 1,
        idx < width * height,
        idx <= i32::MAX,
    ensures
        grid_pos_to_idx_spec(idx_to_grid_pos_spec(idx, width), width, height) == Some(idx),
{
    let i = idx as int;
    let w = width as int;
    vstd::arithmetic::div_mod::lemma_fundamental_div_mod(i, w);
    vstd::arithmetic::div_mod::lemma_mod_bound(i, w);
    vstd::arithmetic::div_mod::lemma_div_pos_is_pos(i, w);
    assert(w * height == height * w) by (nonlinear_arith);
    vstd::arithmetic::div_mod::lemma_multiply_divide_lt(i, w, height as int);
    vstd::arithmetic::div_mod::lemma_div_is_ordered_by_denominator(i, 1, w);
    assert(w * (i / w) == (i / w) * w) by (nonlinear_arith);
    let p = idx_to_grid_pos_spec(idx, width);
    assert(p.x == i % w && p.y == i / w);
    assert(in_bounds(p, w, height as int));
    assert(tile_index(p, w) == i);
}

/// Indexing an in-bounds tile and reading the tile back at that index gives
/// the same tile.
pub proof fn lemma_tile_round_trip(tile: GridPosition, width: i32, height: i32)
    requires
        in_bounds(tile, width as int, height as int),
        tile_index(tile, width as int) <= i32::MAX,
    ensures
        grid_pos_to_idx_spec(tile, width, height) matches Some(idx) && idx_to_grid_pos_spec(
            idx,
            width,
        ) == tile,
{
    vstd::arithmetic::mul::lemma_mul_nonnegative(tile.y as int, width as int);
    vstd::arithmetic::div_mod::lemma_fundamental_div_mod_converse(
        tile_index(tile, width as int),
        width as int,
        tile.y as int,
        tile.x as int,
    );
}

} // verus!
