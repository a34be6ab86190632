use vstd::prelude::*;
use crate::direction::PlayerDirection;

verus! {

/// One cell of the square grid, by column `x` and row `y`.
#[derive(Debug, Clone, Copy, PartialEq, Eq, Structural)]
pub struct Block {
    pub x: i32,
    pub y: i32,
}

/// The cell lies on a grid of `grid_size` by `grid_size` cells.
pub open spec fn in_bounds(b: Block, grid_size: int) -> bool {
    0 <= b.x < grid_size && 0 <= b.y < grid_size
}

/// One coordinate after a unit step, brought back onto the grid: past the
/// last cell it re-enters at `0`, below `0` it re-enters at the last cell.
pub open spec fn wrap(v: int, grid_size: int) -> int {
    if v > grid_size - 1 {
        0
    } else if v < 0 {
        grid_size - 1
    } else {
        v
    }
}

/// The cell reached from `b` by one step in direction `d` on the torus.
pub open spec fn step_from(b: Block, d: PlayerDirection, grid_size: int) -> Block {
    let (dx, dy) = match d {
        PlayerDirection::Down => (0int, 1int),
        PlayerDirection::Up => (0int, -1int),
        PlayerDirection::Left => (-1int, 0int),
        PlayerDirection::Right => (1int, 0int),
    };
    Block { x: wrap(b.x + dx, grid_size) as i32, y: wrap(b.y + dy, grid_size) as i32 }
}

fn wrap_coord(v: i32, delta: i32, grid_size: i32) -> (r: i32)
    requires
        0 <= v < grid_size,
        -1 <= delta <= 1,
    ensures
        r == wrap(v + delta, grid_size as int),
        0 <= r < grid_size,
{
    let n = v + delta;
    if n > grid_size - 1 {
        0
    } else if n < 0 {
        grid_size - 1
    } else {
        n
    }
}

/// The cell one step from `b` in direction `d`, wrapping at the edges.
pub fn next_block(b: &Block, d: PlayerDirection, grid_size: i32) -> (r: Block)
    requires
        grid_size > 0,
        in_bounds(*b, grid_size as int),
    ensures
        r == step_from(*b, d, grid_size as int),
        in_bounds(r, grid_size as int),
{
    let (dx, dy): (i32, i32) = match d {
        PlayerDirection::Down => (0, 1),
        PlayerDirection::Up => (0, -1),
        PlayerDirection::Left => (-1, 0),
        PlayerDirection::Right => (1, 0),
    };
    Block { x: wrap_coord(b.x, dx, grid_size), y: wrap_coord(b.y, dy, grid_size) }
}

/// Leaving the last column to the right re-enters at column `0`, and leaving
/// column `0` to the left re-enters at the last column; likewise for rows.
pub proof fn lemma_wrap_around(grid_size: int, y: i32)
    requires
        grid_size > 0,
        grid_size <= i32::MAX,
        0 <= y < grid_size,
    ensures
        step_from(Block { x: (grid_size - 1) as i32, y }, PlayerDirection::Right, grid_size)
            == (Block { x: 0, y }),
        step_from(Block { x: 0, y }, PlayerDirection::Left, grid_size)
            == (Block { x: (grid_size - 1) as i32, y }),
        step_from(Block { x: y, y: (grid_size - 1) as i32 }, PlayerDirection::Down, grid_size)
            == (Block { x: y, y: 0 }),
        step_from(Block { x: y, y: 0 }, PlayerDirection::Up, grid_size)
            == (Block { x: y, y: (grid_size - 1) as i32 }),
{
}

} // verus!
