//! Shortest paths on the grid, and the player walking along one.

use vstd::prelude::*;

use crate::player_animation::PlayerAnimationVariant;
use crate::utils::GridPosition;
use crate::GRID_CELL_COUNT;

verus! {

/// The cell lies in the square `[lo, hi)` on both axes and holds no wall.
pub open spec fn open_cell(q: GridPosition, walls: Seq<GridPosition>, lo: int, hi: int) -> bool {
    &&& lo <= q.x < hi
    &&& lo <= q.y < hi
    &&& !walls.contains(q)
}

/// The cells share a side.
pub open spec fn adjacent(p: GridPosition, q: GridPosition) -> bool {
    ||| (p.x == q.x && (q.y == p.y - 1 || q.y == p.y + 1))
    ||| (p.y == q.y && (q.x == p.x - 1 || q.x == p.x + 1))
}

/// `path` goes from `start` to `end`, each step to an adjacent open cell.
pub open spec fn is_route(
    path: Seq<GridPosition>,
    start: GridPosition,
    end: GridPosition,
    walls: Seq<GridPosition>,
    lo: int,
    hi: int,
) -> bool {
    &&& path.len() >= 1
    &&& path[0] == start
    &&& path.last() == end
    &&& forall|i: int|
        0 <= i < path.len() - 1 ==> adjacent(#[trigger] path[i], path[i + 1]) && open_cell(
            path[i + 1],
            walls,
            lo,
            hi,
        )
}

/// The cell, if it is open, as a sequence of one cell; else nothing.
pub open spec fn keep_open(q: GridPosition, walls: Seq<GridPosition>, lo: int, hi: int) -> Seq<GridPosition> {
    if open_cell(q, walls, lo, hi) {
        seq![q]
    } else {
        seq![]
    }
}

/// The open neighbours of a cell: below, above, left and right, in this order.
pub open spec fn successors_spec(p: GridPosition, walls: Seq<GridPosition>, lo: int, hi: int) -> Seq<GridPosition> {
    keep_open(GridPosition { x: p.x, y: (p.y - 1) as i32 }, walls, lo, hi)
        + keep_open(GridPosition { x: p.x, y: (p.y + 1) as i32 }, walls, lo, hi)
        + keep_open(GridPosition { x: (p.x - 1) as i32, y: p.y }, walls, lo, hi)
        + keep_open(GridPosition { x: (p.x + 1) as i32, y: p.y }, walls, lo, hi)
}

fn is_wall(q: &GridPosition, walls: &Vec<GridPosition>) -> (r: bool)
    ensures
        r == walls@.contains(*q),
{
    let n = walls.len();
    let mut i: usize = 0;
    while i < n
        invariant
            n == walls.len(),
            0 <= i <= n,
            forall|j: int| 0 <= j < i ==> walls@[j] != *q,
        decreases n - i,
    {
        if walls[i] == *q {
            return true;
        }
        i = i + 1;
    }
    false
}

fn push_if_open(out: &mut Vec<GridPosition>, q: GridPosition, walls: &Vec<GridPosition>, lo: i32, hi: i32)
    ensures
        final(out)@ == old(out)@ + keep_open(q, walls@, lo as int, hi as int),
{
    if lo <= q.x && q.x < hi && lo <= q.y && q.y < hi && !is_wall(&q, walls) {
        out.push(q);
    }
}

/// The open neighbours of a cell: below, above, left and right, in this
/// order.
pub fn successors(p: &GridPosition, walls: &Vec<GridPosition>, lo: i32, hi: i32) -> (r: Vec<GridPosition>)
    requires
        i32::MIN < p.x < i32::MAX,
        i32::MIN < p.y < i32::MAX,
    ensures
        r@ == successors_spec(*p, walls@, lo as int, hi as int),
        forall|q: GridPosition|
            r@.contains(q) <==> adjacent(*p, q) && open_cell(q, walls@, lo as int, hi as int),
{
    let x = p.x;
    let y = p.y;
    let mut out: Vec<GridPosition> = Vec::new();
    push_if_open(&mut out, GridPosition { x, y: y - 1 }, walls, lo, hi);
    push_if_open(&mut out, GridPosition { x, y: y + 1 }, walls, lo, hi);
    push_if_open(&mut out, GridPosition { x: x - 1, y }, walls, lo, hi);
    push_if_open(&mut out, GridPosition { x: x + 1, y }, walls, lo, hi);
    proof {
        assert forall|q: GridPosition|
            out@.contains(q) <==> adjacent(*p, q) && open_cell(q, walls@, lo as int, hi as int) by {
            if out@.contains(q) {
                let k = choose|k: int| 0 <= k < out@.len() && out@[k] == q;
                assert(adjacent(*p, q));
            }
            if adjacent(*p, q) && open_cell(q, walls@, lo as int, hi as int) {
                let s1 = keep_open(GridPosition { x, y: (y - 1) as i32 }, walls@, lo as int, hi as int);
                let s2 = keep_open(GridPosition { x, y: (y + 1) as i32 }, walls@, lo as int, hi as int);
                let s3 = keep_open(GridPosition { x: (x - 1) as i32, y }, walls@, lo as int, hi as int);
                assert(out@ == s1 + s2 + s3 + keep_open(GridPosition { x: (x + 1) as i32, y }, walls@, lo as int, hi as int));
                if q == (GridPosition { x, y: (y - 1) as i32 }) {
                    assert(out@[0] == q);
                } else if q == (GridPosition { x, y: (y + 1) as i32 }) {
                    assert(out@[s1.len() as int] == q);
                } else if q == (GridPosition { x: (x - 1) as i32, y }) {
                    assert(out@[(s1.len() + s2.len()) as int] == q);
                } else {
                    assert(q == (GridPosition { x: (x + 1) as i32, y }));
                    assert(out@[(s1.len() + s2.len() + s3.len()) as int] == q);
                }
                assert(out@.contains(q));
            }
        }
    }
    out
}

/// The search has reached the goal.
fn reached(p: &GridPosition, end: &GridPosition) -> (r: bool)
    ensures
        r == (*p == *end),
{
    *p == *end
}

/// The path that `pathfinding::directed::bfs::bfs` returns from `start` to
/// `end` when the successors of a cell are its open neighbours in `[lo, hi)`,
/// taken below, above, left and right. Its search order fixes which of
/// several shortest paths this is.
pub uninterp spec fn bfs_path(
    start: GridPosition,
    end: GridPosition,
    walls: Seq<GridPosition>,
    lo: i32,
    hi: i32,
) -> Option<Seq<GridPosition>>;

/// The result `r` of a search, as the sequences it holds.
pub open spec fn found_path(r: Option<Vec<GridPosition>>) -> Option<Seq<GridPosition>> {
    match r {
        Some(p) => Some(p@),
        None => None,
    }
}

/// `pathfinding::directed::bfs::bfs` from `start` to `end`, the successors of
/// a cell being its open neighbours. As its documentation says, it returns a
/// shortest path from `start` to `end`, both included, or `None` when there is
/// no path. The search keeps its nodes in an `FxIndexMap`, whose hasher is
/// not seeded and whose order is the order of insertion, so the path it
/// returns depends on the arguments alone: `bfs_path` names it. Which of
/// several shortest paths that is, is not described here.
#[verifier::external_body]
fn bfs_route(start: &GridPosition, end: &GridPosition, walls: &Vec<GridPosition>, lo: i32, hi: i32) -> (r: Option<Vec<GridPosition>>)
    requires
        i32::MIN < start.x < i32::MAX,
        i32::MIN < start.y < i32::MAX,
        i32::MIN < lo,
        hi < i32::MAX,
    ensures
        r matches Some(path) ==> is_route(path@, *start, *end, walls@, lo as int, hi as int),
        r matches Some(path) ==> forall|q: Seq<GridPosition>|
            #[trigger] is_route(q, *start, *end, walls@, lo as int, hi as int) ==> path.len() <= q.len(),
        r is None ==> forall|q: Seq<GridPosition>| !#[trigger] is_route(q, *start, *end, walls@, lo as int, hi as int),
        found_path(r) == bfs_path(*start, *end, walls@, lo, hi),
{
    pathfinding::prelude::bfs(start, |p| successors(p, walls, lo, hi), |p| reached(p, end))
}

/// A shortest path between two cells, both included, that steps only on
/// open cells of `[lo, hi)`, or `None` when there is none.
pub fn shortest_route(start: GridPosition, end: GridPosition, walls: &Vec<GridPosition>, lo: i32, hi: i32) -> (r: Option<Vec<GridPosition>>)
    requires
        i32::MIN < start.x < i32::MAX,
        i32::MIN < start.y < i32::MAX,
        i32::MIN < lo,
        hi < i32::MAX,
    ensures
        r matches Some(path) ==> is_route(path@, start, end, walls@, lo as int, hi as int),
        r matches Some(path) ==> forall|q: Seq<GridPosition>|
            #[trigger] is_route(q, start, end, walls@, lo as int, hi as int) ==> path.len() <= q.len(),
        r is None ==> forall|q: Seq<GridPosition>| !#[trigger] is_route(q, start, end, walls@, lo as int, hi as int),
        found_path(r) == bfs_path(start, end, walls@, lo, hi),
{
    bfs_route(&start, &end, walls, lo, hi)
}

/// Find the shortest path between the player's cell and the active point of
/// interest, around the walls, on the cells numbered from 0 to
/// `GRID_CELL_COUNT - 1`.
pub fn pathfinding(start: GridPosition, end: GridPosition, wall_blocks: &Vec<GridPosition>) -> (r: Option<Vec<GridPosition>>)
    requires
        i32::MIN < start.x < i32::MAX,
        i32::MIN < start.y < i32::MAX,
    ensures
        r matches Some(path) ==> is_route(path@, start, end, wall_blocks@, 0, GRID_CELL_COUNT as int),
        r matches Some(path) ==> forall|q: Seq<GridPosition>|
            #[trigger] is_route(q, start, end, wall_blocks@, 0, GRID_CELL_COUNT as int) ==> path.len() <= q.len(),
        r is None ==> forall|q: Seq<GridPosition>| !#[trigger] is_route(q, start, end, wall_blocks@, 0, GRID_CELL_COUNT as int),
        found_path(r) == bfs_path(start, end, wall_blocks@, 0, GRID_CELL_COUNT),
{
    shortest_route(start, end, wall_blocks, 0, GRID_CELL_COUNT)
}

/// Which way the player's sprite faces.
#[derive(Clone, Copy, PartialEq, Eq, Debug, Structural)]
pub enum Facing {
    Right,
    Left,
    Unchanged,
}

/// What the player does in one step along the path.
#[derive(Clone, Copy, PartialEq, Eq, Debug, Structural)]
pub struct TraversalStep {
    /// The animation to switch to, if any.
    pub transition: Option<PlayerAnimationVariant>,
    pub facing: Facing,
    /// There is a next block: the player moves onto it when the movement
    /// timer has finished.
    pub follows_path: bool,
}

/// The walking animation for a step from one cell to the next; for a move
/// that is not a single step the animation stays.
pub open spec fn walk_variant(current: GridPosition, next: GridPosition, variant: PlayerAnimationVariant) -> PlayerAnimationVariant {
    let dx = next.x - current.x;
    let dy = next.y - current.y;
    if dx == -1 && dy == 0 {
        PlayerAnimationVariant::WalkLeft
    } else if dx == 1 && dy == 0 {
        PlayerAnimationVariant::WalkRight
    } else if dx == 0 && dy == 1 {
        PlayerAnimationVariant::WalkUp
    } else if dx == 0 && dy == -1 {
        PlayerAnimationVariant::WalkDown
    } else {
        variant
    }
}

/// The walking animation follows the step alone: a step down, up, left or
/// right gives that walk whatever the animation was; any other move keeps
/// the animation.
pub proof fn lemma_walk_follows_the_step(current: GridPosition, next: GridPosition, variant: PlayerAnimationVariant)
    ensures
        next.x == current.x && next.y == current.y - 1 ==> walk_variant(current, next, variant)
            == PlayerAnimationVariant::WalkDown,
        next.x == current.x && next.y == current.y + 1 ==> walk_variant(current, next, variant)
            == PlayerAnimationVariant::WalkUp,
        next.x == current.x - 1 && next.y == current.y ==> walk_variant(current, next, variant)
            == PlayerAnimationVariant::WalkLeft,
        next.x == current.x + 1 && next.y == current.y ==> walk_variant(current, next, variant)
            == PlayerAnimationVariant::WalkRight,
        !adjacent(current, next) ==> walk_variant(current, next, variant) == variant,
{
}

/// The player walks towards the next block of the path: the animation
/// follows the direction of the step and the sprite faces right or left as
/// the player walks; with no next block the player goes idle.
pub fn path_traversal(
    player: GridPosition,
    next_path_block: Option<GridPosition>,
    variant: PlayerAnimationVariant,
) -> (r: TraversalStep)
    requires
        next_path_block matches Some(n) ==> i32::MIN <= n.x - player.x <= i32::MAX && i32::MIN
            <= n.y - player.y <= i32::MAX,
    ensures
        match next_path_block {
            Some(n) => {
                let v = walk_variant(player, n, variant);
                r == TraversalStep {
                    transition: Some(v),
                    facing: if v == PlayerAnimationVariant::WalkRight {
                        Facing::Right
                    } else if v == PlayerAnimationVariant::WalkLeft {
                        Facing::Left
                    } else {
                        Facing::Unchanged
                    },
                    follows_path: true,
                }
            },
            None => r == TraversalStep {
                transition: if variant != PlayerAnimationVariant::Idle {
                    Some(PlayerAnimationVariant::Idle)
                } else {
                    None
                },
                facing: Facing::Unchanged,
                follows_path: false,
            },
        },
        next_path_block matches Some(n) ==> (n.x == player.x && n.y == player.y - 1 ==> r.transition
            == Some(PlayerAnimationVariant::WalkDown)),
        next_path_block matches Some(n) ==> (n.x == player.x && n.y == player.y + 1 ==> r.transition
            == Some(PlayerAnimationVariant::WalkUp)),
        next_path_block matches Some(n) ==> (n.x == player.x - 1 && n.y == player.y ==> r.transition
            == Some(PlayerAnimationVariant::WalkLeft)),
        next_path_block matches Some(n) ==> (n.x == player.x + 1 && n.y == player.y ==> r.transition
            == Some(PlayerAnimationVariant::WalkRight)),
        next_path_block matches Some(n) ==> (r.facing == Facing::Right <==> n.x == player.x + 1 && n.y
            == player.y || !adjacent(player, n) && variant == PlayerAnimationVariant::WalkRight),
        next_path_block matches Some(n) ==> (r.facing == Facing::Left <==> n.x == player.x - 1 && n.y
            == player.y || !adjacent(player, n) && variant == PlayerAnimationVariant::WalkLeft),
{
    proof {
        if let Some(n) = next_path_block {
            lemma_walk_follows_the_step(player, n, variant);
        }
    }
    match next_path_block {
        Some(next_grid_position) => {
            let dx = next_grid_position.x - player.x;
            let dy = next_grid_position.y - player.y;
            let next_animation_variant = if dx == -1 && dy == 0 {
                PlayerAnimationVariant::WalkLeft
            } else if dx == 1 && dy == 0 {
                PlayerAnimationVariant::WalkRight
            } else if dx == 0 && dy == 1 {
                PlayerAnimationVariant::WalkUp
            } else if dx == 0 && dy == -1 {
                PlayerAnimationVariant::WalkDown
            } else {
                variant
            };
            let facing = if next_animation_variant == PlayerAnimationVariant::WalkRight {
                Facing::Right
            } else if next_animation_variant == PlayerAnimationVariant::WalkLeft {
                Facing::Left
            } else {
                Facing::Unchanged
            };
            TraversalStep { transition: Some(next_animation_variant), facing, follows_path: true }
        },
        None => {
            let transition = if variant != PlayerAnimationVariant::Idle {
                Some(PlayerAnimationVariant::Idle)
            } else {
                None
            };
            TraversalStep { transition, facing: Facing::Unchanged, follows_path: false }
        },
    }
}

} // verus!
