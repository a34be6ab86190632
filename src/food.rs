use vstd::prelude::*;
use crate::grid::{Block, in_bounds};

verus! {

/// Relies on `rand::Rng::gen_range` on `rand::thread_rng()`: a value drawn
/// from `0..bound`. It panics on an empty range, which `requires` rules out.
#[verifier::external_body]
fn draw_below(bound: i32) -> (r: i32)
    requires
        bound > 0,
    ensures
        0 <= r < bound,
{
    rand::Rng::gen_range(&mut rand::thread_rng(), 0..bound)
}

/// The piece of food the snake is after.
#[derive(Debug, Clone, Copy, PartialEq, Eq, Structural)]
pub struct Object {
    pub body: Block,
}

impl Object {
    /// Food on a cell drawn at random over the whole grid.
    pub fn new(grid_size: i32) -> (r: Object)
        requires
            grid_size > 0,
        ensures
            in_bounds(r.body, grid_size as int),
    {
        let x = draw_below(grid_size);
        let y = draw_below(grid_size);
        Object { body: Block { x, y } }
    }

    /// Food on the given cell.
    pub fn at(body: Block) -> (r: Object)
        ensures
            r.body == body,
    {
        Object { body }
    }
}

} // verus!
