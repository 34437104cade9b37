//! The world that the field of view is computed on, built from the wall
//! blocks, and the darkness of the tiles the player does not see.

use vstd::prelude::*;

use crate::collections::{index_set, IndexSet};
use crate::debug::DebugConfig;
use crate::components::Hidden;
use crate::field_of_view::{seen_at, TileType, Visibility};
use crate::utils::{grid_pos_to_idx, in_bounds, tile_index, trunc_div, GridPosition};
use crate::{GRID_CELL_COUNT, MAX_VISIBLE_DISTANCE};

verus! {

/// Some wall block lies on the play field at row-major index `i`.
pub open spec fn is_wall_index(walls: Seq<GridPosition>, i: int) -> bool {
    exists|k: int|
        0 <= k < walls.len() && in_bounds(walls[k], GRID_CELL_COUNT as int, GRID_CELL_COUNT as int)
            && #[trigger] tile_index(walls[k], GRID_CELL_COUNT as int) == i
}

/// Tile `i` has been visited when the scan has reached column `x` and, in
/// that column, row `y`.
spec fn visited(i: int, x: int, y: int) -> bool {
    let c = GRID_CELL_COUNT as int;
    i % c < x || (i % c == x && i / c < y)
}

proof fn lemma_cell_of_index(i: int, x: int, y: int)
    requires
        0 <= x < GRID_CELL_COUNT,
        0 <= y < GRID_CELL_COUNT,
    ensures
        i == y * GRID_CELL_COUNT + x <==> (i % (GRID_CELL_COUNT as int) == x && i / (
        GRID_CELL_COUNT as int) == y),
{
    let c = GRID_CELL_COUNT as int;
    if i == y * c + x {
        vstd::arithmetic::div_mod::lemma_fundamental_div_mod_converse(i, c, y, x);
    }
    if i % c == x && i / c == y {
        vstd::arithmetic::div_mod::lemma_fundamental_div_mod(i, c);
    }
}

/// The tiles of the play field, row by row: a tile is opaque where a wall
/// block lies, transparent elsewhere. Blocks off the play field are left out.
pub fn wall_tiles(wall_blocks: &Vec<GridPosition>) -> (r: Vec<TileType>)
    ensures
        r.len() == GRID_CELL_COUNT * GRID_CELL_COUNT,
        forall|i: int|
            0 <= i < r.len() ==> #[trigger] r[i] == (if is_wall_index(wall_blocks@, i) {
                TileType::Opaque
            } else {
                TileType::Transparent
            }),
{
    let c = GRID_CELL_COUNT;
    let mut wall_position_hash_set = IndexSet::new();
    let n = wall_blocks.len();
    let mut k: usize = 0;
    while k < n
        invariant
            c == GRID_CELL_COUNT,
            n == wall_blocks.len(),
            0 <= k <= n,
            forall|i: usize|
                #![trigger index_set(wall_position_hash_set).contains(i)]
                index_set(wall_position_hash_set).contains(i) <==> exists|j: int|
                    0 <= j < k && in_bounds(wall_blocks@[j], c as int, c as int) && #[trigger] tile_index(
                        wall_blocks@[j],
                        c as int,
                    ) == i,
        decreases n - k,
    {
        let grid_position = wall_blocks[k];
        proof {
            if in_bounds(grid_position, c as int, c as int) {
                assert(tile_index(grid_position, c as int) <= 31 * 32 + 31) by (nonlinear_arith)
                    requires
                        c == 32,
                        0 <= grid_position.x < 32,
                        0 <= grid_position.y < 32,
                ;
            }
        }
        if let Some(idx) = grid_pos_to_idx(&grid_position, c, c) {
            wall_position_hash_set.insert(idx);
        }
        proof {
            assert forall|i: usize|
                #![trigger index_set(wall_position_hash_set).contains(i)]
                index_set(wall_position_hash_set).contains(i) <==> exists|j: int|
                    0 <= j < k + 1 && in_bounds(wall_blocks@[j], c as int, c as int) && #[trigger] tile_index(
                        wall_blocks@[j],
                        c as int,
                    ) == i by {
                if in_bounds(wall_blocks@[k as int], c as int, c as int) && tile_index(wall_blocks@[k as int], c as int) == i {
                    assert(index_set(wall_position_hash_set).contains(i));
                }
            }
        }
        k = k + 1;
    }

    let total: usize = (c * c) as usize;
    let mut tiles: Vec<TileType> = Vec::new();
    while tiles.len() < total
        invariant
            total == 1024,
            tiles.len() <= total,
            forall|i: int| 0 <= i < tiles.len() ==> tiles[i] == TileType::Transparent,
        decreases total - tiles.len(),
    {
        tiles.push(TileType::Transparent);
    }

    let mut x: i32 = 0;
    while x <= c
        invariant
            c == GRID_CELL_COUNT,
            0 <= x <= c + 1,
            tiles.len() == 1024,
            forall|i: int|
                0 <= i < 1024 ==> #[trigger] tiles[i] == (if index_set(
                    wall_position_hash_set,
                ).contains(i as usize) && visited(i, x as int, 0) {
                    TileType::Opaque
                } else {
                    TileType::Transparent
                }),
        decreases c + 1 - x,
    {
        let mut y: i32 = 0;
        while y <= c
            invariant
                c == GRID_CELL_COUNT,
                0 <= x <= c,
                0 <= y <= c + 1,
                tiles.len() == 1024,
                forall|i: int|
                    0 <= i < 1024 ==> #[trigger] tiles[i] == (if index_set(
                        wall_position_hash_set,
                    ).contains(i as usize) && visited(i, x as int, y as int) {
                        TileType::Opaque
                    } else {
                        TileType::Transparent
                    }),
            decreases c + 1 - y,
        {
            let ghost before = tiles@;
            let idx = grid_pos_to_idx(&GridPosition { x, y }, c, c);
            if let Some(idx) = idx {
                if wall_position_hash_set.contains(idx) {
                    tiles.set(idx, TileType::Opaque);
                }
            }
            proof {
                assert forall|i: int| 0 <= i < 1024 implies #[trigger] tiles[i] == (if index_set(
                    wall_position_hash_set,
                ).contains(i as usize) && visited(i, x as int, y + 1) {
                    TileType::Opaque
                } else {
                    TileType::Transparent
                }) by {
                    assert(before[i] == (if index_set(wall_position_hash_set).contains(i as usize)
                        && visited(i, x as int, y as int) {
                        TileType::Opaque
                    } else {
                        TileType::Transparent
                    }));
                    if x < c && y < c {
                        lemma_cell_of_index(i, x as int, y as int);
                    } else {
                        vstd::arithmetic::div_mod::lemma_mod_bound(i, c as int);
                        vstd::arithmetic::div_mod::lemma_multiply_divide_lt(i, c as int, c as int);
                    }
                }
            }
            y = y + 1;
        }
        proof {
            assert forall|i: int| 0 <= i < 1024 implies #[trigger] visited(i, x as int, c + 1) == visited(
                i,
                x + 1,
                0,
            ) by {
                vstd::arithmetic::div_mod::lemma_multiply_divide_lt(i, c as int, c as int);
            }
        }
        x = x + 1;
    }
    proof {
        assert forall|i: int| 0 <= i < 1024 implies #[trigger] tiles[i] == (if is_wall_index(
            wall_blocks@,
            i,
        ) {
            TileType::Opaque
        } else {
            TileType::Transparent
        }) by {
            vstd::arithmetic::div_mod::lemma_mod_bound(i, c as int);
            assert(visited(i, x as int, 0));
            assert(index_set(wall_position_hash_set).contains(i as usize) == is_wall_index(
                wall_blocks@,
                i,
            ));
        }
    }
    tiles
}

/// The quotient by a negative divisor is the one whose product with the
/// divisor leaves a remainder in `[0, -d)`.
proof fn lemma_div_by_negative(x: int, d: int, q: int, r: int)
    requires
        d < 0,
        0 <= r < -d,
        x == d * q + r,
    ensures
        x / d == q,
{
    assert(x / d == q) by (nonlinear_arith)
        requires
            d < 0,
            0 <= r < -d,
            x == d * q + r,
    ;
}

/// The darkness of the overlay on a tile the player does not see: one minus
/// the light intensity divided by the light height plus the visible distance,
/// in integer division.
pub fn unseen_tile_alpha(debug_config: &DebugConfig) -> (r: i32)
    requires
        i32::MIN <= debug_config.light_height.value + MAX_VISIBLE_DISTANCE <= i32::MAX,
        debug_config.light_height.value + MAX_VISIBLE_DISTANCE != 0,
        !(debug_config.light_intensity.value == i32::MIN && debug_config.light_height.value
            + MAX_VISIBLE_DISTANCE == -1),
        1 - trunc_div(
            debug_config.light_intensity.value as int,
            debug_config.light_height.value + MAX_VISIBLE_DISTANCE,
        ) <= i32::MAX,
    ensures
        r == 1 - trunc_div(
            debug_config.light_intensity.value as int,
            debug_config.light_height.value + MAX_VISIBLE_DISTANCE,
        ),
{
    let intensity = debug_config.light_intensity.value;
    let d = debug_config.light_height.value + MAX_VISIBLE_DISTANCE;
    // Rust rounds the quotient towards zero whatever the signs; this divides
    // by the magnitude of `d` only.
    let q = if d > 0 {
        intensity / d
    } else {
        let m = -d;
        let p = intensity / m;
        proof {
            let x = intensity as int;
            let mi = m as int;
            let di = d as int;
            if x >= 0 {
                vstd::arithmetic::div_mod::lemma_fundamental_div_mod(x, mi);
                vstd::arithmetic::div_mod::lemma_mod_bound(x, mi);
                assert(di * (-(x / mi)) == mi * (x / mi)) by (nonlinear_arith)
                    requires
                        di == -mi,
                ;
                lemma_div_by_negative(x, di, -(x / mi), x % mi);
            } else {
                vstd::arithmetic::div_mod::lemma_fundamental_div_mod(-x, mi);
                vstd::arithmetic::div_mod::lemma_mod_bound(-x, mi);
                assert(di * (-((-x) / mi)) == mi * ((-x) / mi)) by (nonlinear_arith)
                    requires
                        di == -mi,
                ;
                lemma_div_by_negative(-x, di, -((-x) / mi), (-x) % mi);
            }
        }
        -p
    };
    1 - q
}

/// The overlay on a cell of the play field.
#[derive(Clone, Copy, PartialEq, Eq, Debug, Structural)]
pub struct CellOverlay {
    /// The squared distance at which the cell was seen, if it was.
    pub seen_at: Option<i32>,
    /// The marker of the overlay.
    pub hidden: Hidden,
}

/// The overlay on a cell: a cell seen at some squared distance gets a marker
/// of visibility 4 and lets the light through by that distance; an unseen
/// cell gets a marker of visibility 0 and the darkness of unseen tiles.
pub fn cell_overlay(visibility: &Visibility, cell: &GridPosition) -> (r: CellOverlay)
    ensures
        r.seen_at == seen_at(visibility.visible(), *cell),
        r.hidden == (Hidden { visibility: if r.seen_at is Some { 4u8 } else { 0u8 } }),
{
    let seen = visibility.seen_distance(cell);
    match seen {
        Some(_) => CellOverlay { seen_at: seen, hidden: Hidden { visibility: 4 } },
        None => CellOverlay { seen_at: seen, hidden: Hidden { visibility: 0 } },
    }
}

} // verus!
