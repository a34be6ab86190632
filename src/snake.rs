use std::collections::VecDeque;
use vstd::prelude::*;
use crate::direction::PlayerDirection;
use crate::grid::{Block, in_bounds, next_block, step_from};

verus! {

broadcast use vstd::std_specs::vecdeque::group_vec_dequeue_axioms;

/// Every cell of `cells` lies on the grid.
pub open spec fn all_in_bounds(cells: Seq<Block>, grid_size: int) -> bool {
    forall|i: int| 0 <= i < cells.len() ==> #[trigger] in_bounds(cells[i], grid_size)
}

/// The head (first cell) is repeated somewhere in the rest of the body.
pub open spec fn head_hits_body(cells: Seq<Block>) -> bool {
    exists|i: int| 1 <= i < cells.len() && #[trigger] cells[i] == cells[0]
}

/// The body after a plain move: a new head in front, the tail dropped.
pub open spec fn moved(cells: Seq<Block>, new_head: Block) -> Seq<Block> {
    seq![new_head] + cells.drop_last()
}

/// The snake: its body as a sequence of cells, head first, on a square grid
/// that wraps around at its edges.
pub struct Player {
    grid_size: i32,
    direction: PlayerDirection,
    body: VecDeque<Block>,
}

impl View for Player {
    type V = Seq<Block>;

    /// The body, head first.
    closed spec fn view(&self) -> Seq<Block> {
        self.body@
    }
}

impl Player {
    /// Side of the grid the snake lives on.
    pub closed spec fn grid(&self) -> int {
        self.grid_size as int
    }

    /// Direction of the last accepted move.
    pub closed spec fn heading(&self) -> PlayerDirection {
        self.direction
    }

    /// At least one cell, every cell on a grid of positive size.
    pub open spec fn wf(&self) -> bool {
        &&& self.grid() > 0
        &&& self@.len() >= 1
        &&& all_in_bounds(self@, self.grid())
    }

    /// The cell the head would enter by moving in direction `d`.
    pub open spec fn target(&self, d: PlayerDirection) -> Block {
        step_from(self@[0], d, self.grid())
    }

    /// A snake of one cell in the middle of the grid, heading down.
    pub fn new(grid_size: i32) -> (r: Player)
        requires
            grid_size > 0,
        ensures
            r.wf(),
            r.grid() == grid_size,
            r.heading() == PlayerDirection::Down,
            r@ == seq![Block { x: (grid_size / 2) as i32, y: (grid_size / 2) as i32 }],
    {
        let mut body = VecDeque::new();
        body.push_back(Block { x: grid_size / 2, y: grid_size / 2 });
        Player { grid_size, direction: PlayerDirection::Down, body }
    }

    /// A snake with the given body and direction, or `None` when the body is
    /// empty, leaves the grid, or the grid has no cell.
    pub fn from_cells(grid_size: i32, cells: &Vec<Block>, direction: PlayerDirection) -> (r: Option<
        Player,
    >)
        ensures
            r is Some <==> (grid_size > 0 && cells@.len() >= 1 && all_in_bounds(
                cells@,
                grid_size as int,
            )),
            r matches Some(p) ==> p.wf() && p@ == cells@ && p.grid() == grid_size && p.heading()
                == direction,
    {
        if grid_size <= 0 || cells.len() == 0 {
            return None;
        }
        let mut body: VecDeque<Block> = VecDeque::new();
        let n = cells.len();
        let mut i: usize = 0;
        while i < n
            invariant
                n == cells@.len(),
                i <= n,
                body@ == cells@.take(i as int),
                all_in_bounds(body@, grid_size as int),
            decreases n - i,
        {
            let c = cells[i];
            if !(0 <= c.x && c.x < grid_size && 0 <= c.y && c.y < grid_size) {
                assert(!in_bounds(cells@[i as int], grid_size as int));
                return None;
            }
            body.push_back(c);
            assert(body@ =~= cells@.take(i as int + 1));
            i += 1;
        }
        assert(cells@.take(n as int) =~= cells@);
        Some(Player { grid_size, direction, body })
    }

    /// Moves one cell in direction `dir`: a new head on the neighbouring
    /// cell (wrapping at the edges), and the tail leaves.
    pub fn forward(&mut self, dir: &PlayerDirection)
        requires
            old(self).wf(),
        ensures
            final(self).wf(),
            final(self)@ == moved(old(self)@, old(self).target(*dir)),
            final(self).grid() == old(self).grid(),
            final(self).heading() == old(self).heading(),
    {
        let head = self.body[0];
        let new_head = next_block(&head, *dir, self.grid_size);
        self.body.push_front(new_head);
        let _ = self.body.pop_back();
        proof {
            let cells = self@;
            assert(cells =~= moved(old(self)@, new_head));
            assert forall|i: int| 0 <= i < cells.len() implies #[trigger] in_bounds(
                cells[i],
                self.grid(),
            ) by {
                if i > 0 {
                    assert(cells[i] == old(self)@[i - 1]);
                }
            }
        }
    }

    /// Grows by one cell: `cell` becomes the new head and the tail stays.
    pub fn grow(&mut self, cell: &Block)
        requires
            old(self).wf(),
            in_bounds(*cell, old(self).grid()),
        ensures
            final(self).wf(),
            final(self)@ == seq![*cell] + old(self)@,
            final(self).grid() == old(self).grid(),
            final(self).heading() == old(self).heading(),
    {
        self.body.push_front(*cell);
        proof {
            let cells = self@;
            assert forall|i: int| 0 <= i < cells.len() implies #[trigger] in_bounds(
                cells[i],
                self.grid(),
            ) by {
                if i > 0 {
                    assert(cells[i] == old(self)@[i - 1]);
                }
            }
        }
    }

    pub fn get_direction(&self) -> (r: PlayerDirection)
        ensures
            r == self.heading(),
    {
        self.direction
    }

    /// Records `dir` as the direction of travel.
    pub fn set_direction(&mut self, dir: PlayerDirection)
        ensures
            final(self).heading() == dir,
            final(self)@ == old(self)@,
            final(self).grid() == old(self).grid(),
    {
        self.direction = dir;
    }

    pub fn get_size(&self) -> (r: usize)
        ensures
            r == self@.len(),
    {
        self.body.len()
    }

    pub fn get_grid_size(&self) -> (r: i32)
        ensures
            r == self.grid(),
    {
        self.grid_size
    }

    pub fn head(&self) -> (r: Block)
        requires
            self.wf(),
        ensures
            r == self@[0],
    {
        self.body[0]
    }

    /// The cell `k` of the body, counted from the head.
    pub fn cell(&self, k: usize) -> (r: Block)
        requires
            k < self@.len(),
        ensures
            r == self@[k as int],
    {
        self.body[k]
    }

    /// The body, head first.
    pub fn cells(&self) -> (r: Vec<Block>)
        ensures
            r@ == self@,
    {
        let n = self.body.len();
        let mut out: Vec<Block> = Vec::new();
        let mut i: usize = 0;
        while i < n
            invariant
                n == self@.len(),
                i <= n,
                out@ == self@.take(i as int),
            decreases n - i,
        {
            out.push(self.body[i]);
            assert(out@ =~= self@.take(i as int + 1));
            i += 1;
        }
        assert(self@.take(n as int) =~= self@);
        out
    }

    /// Whether some cell of the body is `b`.
    pub fn occupies(&self, b: &Block) -> (r: bool)
        ensures
            r == self@.contains(*b),
    {
        let n = self.body.len();
        let mut i: usize = 0;
        while i < n
            invariant
                n == self@.len(),
                i <= n,
                forall|j: int| 0 <= j < i ==> self@[j] != *b,
            decreases n - i,
        {
            if self.body[i] == *b {
                return true;
            }
            i += 1;
        }
        false
    }

    /// Whether the head lies on another cell of the body.
    pub fn check_eat_himself(&self) -> (r: bool)
        requires
            self.wf(),
        ensures
            r == head_hits_body(self@),
    {
        let head = self.body[0];
        let n = self.body.len();
        let mut i: usize = 1;
        while i < n
            invariant
                n == self@.len(),
                1 <= i <= n,
                head == self@[0],
                forall|j: int| 1 <= j < i ==> #[trigger] self@[j] != self@[0],
            decreases n - i,
        {
            if self.body[i] == head {
                return true;
            }
            i += 1;
        }
        false
    }
}

} // verus!
