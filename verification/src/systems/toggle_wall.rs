//! Adding and removing wall blocks.

use vstd::prelude::*;

use crate::events::ToggleWallBlockEvent;
use crate::utils::{translation_to_grid_pos, translation_to_grid_pos_spec, GridPosition, Translation};

verus! {

/// What toggling a wall does to the wall blocks.
#[derive(Clone, Copy, PartialEq, Eq, Debug, Structural)]
pub enum WallAction {
    /// Remove the wall block at this index of the blocks.
    Despawn(usize),
    /// Add a wall block at this point.
    Spawn(Translation),
}

/// The cell that holds a point, if it lies on the play field.
#[verifier::opaque]
pub open spec fn block_cell(t: Translation) -> Option<GridPosition> {
    translation_to_grid_pos_spec(t)
}

/// The first block, at index `from` or later, whose cell is `cell`.
pub open spec fn first_block_in_cell(blocks: Seq<Translation>, cell: Option<GridPosition>, from: int) -> Option<int>
    decreases blocks.len() - from,
{
    if from < 0 || from >= blocks.len() {
        None
    } else if block_cell(blocks[from]) == cell {
        Some(from)
    } else {
        first_block_in_cell(blocks, cell, from + 1)
    }
}

/// The blocks, from index `from` on up to the first one in `cell`, all lie on
/// the play field: the search reads the cell of each of them.
pub open spec fn blocks_on_grid_until(blocks: Seq<Translation>, cell: Option<GridPosition>, from: int) -> bool
    decreases blocks.len() - from,
{
    if from < 0 || from >= blocks.len() {
        true
    } else {
        block_cell(blocks[from]) is Some && (block_cell(
            blocks[from],
        ) == cell || blocks_on_grid_until(blocks, cell, from + 1))
    }
}

/// Toggling the wall at the point of an event: the first block in the same
/// cell goes; if there is none, a block comes at the point.
pub open spec fn toggle_action(blocks: Seq<Translation>, event: ToggleWallBlockEvent) -> WallAction {
    match first_block_in_cell(blocks, block_cell(event.translation), 0) {
        Some(j) => WallAction::Despawn(j as usize),
        None => WallAction::Spawn(event.translation),
    }
}

/// The search for the event's cell reads only points on the play field: the
/// event's point, as soon as there is a block to compare it with, and the
/// blocks up to the first one in its cell.
pub open spec fn toggle_readable(blocks: Seq<Translation>, event: ToggleWallBlockEvent) -> bool {
    &&& blocks.len() > 0 ==> block_cell(event.translation) is Some
    &&& blocks_on_grid_until(blocks, block_cell(event.translation), 0)
}

/// For each event, what it does to the wall blocks, all decided against the
/// blocks as they are before any of the events.
pub fn toggle_wall(toggle_wall_block: &Vec<ToggleWallBlockEvent>, blocks: &Vec<Translation>) -> (r: Vec<WallAction>)
    requires
        forall|i: int| 0 <= i < toggle_wall_block.len() ==> toggle_readable(blocks@, #[trigger] toggle_wall_block[i]),
    ensures
        r.len() == toggle_wall_block.len(),
        forall|i: int| 0 <= i < r.len() ==> r[i] == toggle_action(blocks@, #[trigger] toggle_wall_block[i]),
{
    reveal(block_cell);
    let mut actions: Vec<WallAction> = Vec::new();
    let n = toggle_wall_block.len();
    let mut i: usize = 0;
    while i < n
        invariant
            n == toggle_wall_block.len(),
            0 <= i <= n,
            forall|e: int| 0 <= e < n ==> toggle_readable(blocks@, #[trigger] toggle_wall_block[e]),
            actions.len() == i,
            forall|e: int| 0 <= e < i ==> actions[e] == toggle_action(blocks@, #[trigger] toggle_wall_block[e]),
        decreases n - i,
    {
        proof {
            reveal(block_cell);
        }
        let event = toggle_wall_block[i];
        assert(toggle_readable(blocks@, toggle_wall_block[i as int]));
        let event_cell = translation_to_grid_pos(event.translation);
        let m = blocks.len();
        let mut j: usize = 0;
        let mut found: Option<usize> = None;
        while j < m
            invariant_except_break
                m == blocks.len(),
                0 <= j <= m,
                found is None,
                event_cell == block_cell(event.translation),
                first_block_in_cell(blocks@, event_cell, 0) == first_block_in_cell(blocks@, event_cell, j as int),
            ensures
                found == match first_block_in_cell(blocks@, event_cell, 0) {
                    Some(f) => Some(f as usize),
                    None => None,
                },
            decreases m - j,
        {
            proof {
                reveal(block_cell);
            }
            if translation_to_grid_pos(blocks[j]) == event_cell {
                found = Some(j);
                break;
            }
            j = j + 1;
        }
        let action = match found {
            None => WallAction::Spawn(event.translation),
            Some(j) => WallAction::Despawn(j),
        };
        actions.push(action);
        i = i + 1;
    }
    actions
}

/// The wall blocks after an action: a despawned block leaves, a spawned
/// one is added at the end.
pub open spec fn apply_wall_action(blocks: Seq<Translation>, action: WallAction) -> Seq<Translation> {
    match action {
        WallAction::Despawn(j) => blocks.remove(j as int),
        WallAction::Spawn(t) => blocks.push(t),
    }
}

/// No two wall blocks share a cell.
pub open spec fn one_block_per_cell(blocks: Seq<Translation>) -> bool {
    forall|i: int, j: int|
        0 <= i < blocks.len() && 0 <= j < blocks.len() && i != j ==> block_cell(
            #[trigger] blocks[i],
        ) != block_cell(#[trigger] blocks[j])
}

/// Some wall block lies in the cell.
pub open spec fn has_block_in(blocks: Seq<Translation>, cell: Option<GridPosition>) -> bool {
    exists|i: int| 0 <= i < blocks.len() && block_cell(#[trigger] blocks[i]) == cell
}

proof fn lemma_first_block_in_cell(blocks: Seq<Translation>, cell: Option<GridPosition>, from: int)
    requires
        0 <= from,
    ensures
        match first_block_in_cell(blocks, cell, from) {
            Some(j) => from <= j < blocks.len() && block_cell(blocks[j]) == cell,
            None => forall|i: int|
                from <= i < blocks.len() ==> block_cell(#[trigger] blocks[i]) != cell,
        },
    decreases blocks.len() - from,
{
    if from < blocks.len() && block_cell(blocks[from]) != cell {
        lemma_first_block_in_cell(blocks, cell, from + 1);
    }
}

proof fn lemma_toggle_flips_seq(blocks: Seq<Translation>, event: ToggleWallBlockEvent, other: Option<GridPosition>)
    requires
        one_block_per_cell(blocks),
        blocks.len() <= usize::MAX + 1,
        block_cell(event.translation) is Some,
    ensures
        ({
            let cell = block_cell(event.translation);
            let after = apply_wall_action(blocks, toggle_action(blocks, event));
            &&& has_block_in(after, cell) == !has_block_in(blocks, cell)
            &&& other != cell ==> has_block_in(after, other) == has_block_in(blocks, other)
            &&& one_block_per_cell(after)
            &&& after.len() <= blocks.len() + 1
        }),
{
    let cell = block_cell(event.translation);
    lemma_first_block_in_cell(blocks, cell, 0);
    let after = apply_wall_action(blocks, toggle_action(blocks, event));
    match first_block_in_cell(blocks, cell, 0) {
        Some(j) => {
            assert(after =~= blocks.remove(j));
            assert(has_block_in(blocks, cell));
            assert forall|i: int| 0 <= i < after.len() implies block_cell(
                #[trigger] after[i],
            ) != cell by {
                if i < j {
                    assert(after[i] == blocks[i]);
                } else {
                    assert(after[i] == blocks[i + 1]);
                }
            }
            if other != cell {
                if has_block_in(blocks, other) {
                    let i = choose|i: int| 0 <= i < blocks.len() && block_cell(#[trigger] blocks[i]) == other;
                    if i < j {
                        assert(after[i] == blocks[i]);
                    } else {
                        assert(after[i - 1] == blocks[i]);
                    }
                }
                if has_block_in(after, other) {
                    let i = choose|i: int| 0 <= i < after.len() && block_cell(#[trigger] after[i]) == other;
                    if i < j {
                        assert(after[i] == blocks[i]);
                    } else {
                        assert(after[i] == blocks[i + 1]);
                    }
                }
            }
            assert forall|a: int, b: int|
                0 <= a < after.len() && 0 <= b < after.len() && a != b implies block_cell(
                #[trigger] after[a],
            ) != block_cell(#[trigger] after[b]) by {
                let a2 = if a < j { a } else { a + 1 };
                let b2 = if b < j { b } else { b + 1 };
                assert(after[a] == blocks[a2]);
                assert(after[b] == blocks[b2]);
            }
        },
        None => {
            assert(after =~= blocks.push(event.translation));
            assert(after[blocks.len() as int] == event.translation);
            assert(!has_block_in(blocks, cell));
            if other != cell {
                if has_block_in(blocks, other) {
                    let i = choose|i: int| 0 <= i < blocks.len() && block_cell(#[trigger] blocks[i]) == other;
                    assert(after[i] == blocks[i]);
                }
                if has_block_in(after, other) {
                    let i = choose|i: int| 0 <= i < after.len() && block_cell(#[trigger] after[i]) == other;
                    assert(after[i] == blocks[i]);
                }
            }
        },
    }
}

/// Toggling flips whether the event's cell holds a wall block, leaves every
/// other cell as it was, and keeps at most one block per cell.
pub proof fn lemma_toggle_flips_the_cell(blocks: Vec<Translation>, event: ToggleWallBlockEvent, other: Option<GridPosition>)
    requires
        one_block_per_cell(blocks@),
        block_cell(event.translation) is Some,
    ensures
        ({
            let cell = block_cell(event.translation);
            let after = apply_wall_action(blocks@, toggle_action(blocks@, event));
            &&& has_block_in(after, cell) == !has_block_in(blocks@, cell)
            &&& other != cell ==> has_block_in(after, other) == has_block_in(blocks@, other)
            &&& one_block_per_cell(after)
            &&& after.len() <= blocks@.len() + 1
        }),
{
    vstd::std_specs::vec::axiom_spec_len(&blocks);
    lemma_toggle_flips_seq(blocks@, event, other);
}

/// Toggling the same cell twice gives back a wall in exactly the cells that
/// had one.
pub proof fn lemma_toggle_twice_restores(blocks: Vec<Translation>, event: ToggleWallBlockEvent, c: Option<GridPosition>)
    requires
        one_block_per_cell(blocks@),
        block_cell(event.translation) is Some,
    ensures
        ({
            let once = apply_wall_action(blocks@, toggle_action(blocks@, event));
            let twice = apply_wall_action(once, toggle_action(once, event));
            has_block_in(twice, c) == has_block_in(blocks@, c)
        }),
{
    vstd::std_specs::vec::axiom_spec_len(&blocks);
    let once = apply_wall_action(blocks@, toggle_action(blocks@, event));
    lemma_toggle_flips_seq(blocks@, event, c);
    lemma_toggle_flips_seq(once, event, c);
}

} // verus!
