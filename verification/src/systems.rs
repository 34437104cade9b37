//! The systems that turn input into events and events into changes of the
//! game state.

use vstd::prelude::*;

use crate::events::{CyclePOIEvent, ToggleWallBlockEvent};
use crate::systems::pathfinding::{bfs_path, found_path, is_route, shortest_route};
use crate::utils::{snap_to_grid, snap_to_grid_spec, GridPosition, Translation};
use crate::GRID_CELL_COUNT;

pub mod arrow_keys;
pub mod cycle_poi;
pub mod keyboard_events;
pub mod mouse_click;
pub mod pathfinding;
pub mod player_move;
pub mod toggle_wall;
pub mod visibility;

verus! {

/// The events that one frame of mouse input sends.
#[derive(Clone, Copy, PartialEq, Eq, Debug, Structural)]
pub struct MouseClickEvents {
    pub toggle_wall: Option<ToggleWallBlockEvent>,
    pub cycle_point_of_interest: Option<CyclePOIEvent>,
}

/// A left click toggles the wall in the cell under the cursor, snapped to
/// the centre of that cell; a right click moves on to the next point of
/// interest.
pub fn mouse_click(left_just_pressed: bool, cursor: Option<Translation>, right_just_pressed: bool) -> (r: MouseClickEvents)
    requires
        left_just_pressed ==> (cursor matches Some(c) ==> snap_to_grid_spec(c) is Some),
    ensures
        r.toggle_wall == (if left_just_pressed && cursor is Some {
            Some(ToggleWallBlockEvent { translation: snap_to_grid_spec(cursor->0)->0 })
        } else {
            None
        }),
        r.cycle_point_of_interest == (if right_just_pressed {
            Some(CyclePOIEvent)
        } else {
            None
        }),
{
    let mut toggle_wall = None;
    if left_just_pressed {
        if let Some(cursor_pos) = cursor {
            let snapped = snap_to_grid(cursor_pos);
            if let Some(translation) = snapped {
                toggle_wall = Some(ToggleWallBlockEvent { translation });
            }
        }
    }
    let cycle_point_of_interest = if right_just_pressed {
        Some(CyclePOIEvent {})
    } else {
        None
    };
    MouseClickEvents { toggle_wall, cycle_point_of_interest }
}

/// Find the shortest path between the player's cell and the active point of
/// interest, around the walls, on the cells of the play field, numbered from
/// 1 to `GRID_CELL_COUNT`.
pub fn pathfinding(start: GridPosition, end: GridPosition, blocks: &Vec<GridPosition>) -> (r: Option<Vec<GridPosition>>)
    requires
        i32::MIN < start.x < i32::MAX,
        i32::MIN < start.y < i32::MAX,
    ensures
        r matches Some(path) ==> is_route(path@, start, end, blocks@, 1, GRID_CELL_COUNT + 1),
        r matches Some(path) ==> forall|q: Seq<GridPosition>|
            #[trigger] is_route(q, start, end, blocks@, 1, GRID_CELL_COUNT + 1) ==> path.len() <= q.len(),
        r is None ==> forall|q: Seq<GridPosition>| !#[trigger] is_route(q, start, end, blocks@, 1, GRID_CELL_COUNT + 1),
        found_path(r) == bfs_path(start, end, blocks@, 1, (GRID_CELL_COUNT + 1) as i32),
{
    shortest_route(start, end, blocks, 1, GRID_CELL_COUNT + 1)
}

} // verus!
