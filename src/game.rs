use vstd::prelude::*;
use crate::direction::PlayerDirection;
use crate::food::Object;
use crate::grid::{Block, in_bounds, next_block, step_from};
use crate::intent::{
    Intent,
    last_direction,
    last_move,
    lemma_repeated_move,
    resolve_direction,
    resolved,
};
use crate::snake::{Player, all_in_bounds, head_hits_body, moved};

verus! {

/// How many times a new piece of food is drawn at most while it keeps
/// landing on the snake; the last draw is kept.
pub const FOOD_DRAWS: u32 = 16;

/// What one tick did.
#[derive(Debug, Clone, Copy, PartialEq, Eq, Structural)]
pub enum Outcome {
    /// The snake moved one cell.
    Continued,
    /// The snake ate the food and grew by one cell.
    Grew,
    /// The head ran into the body: the game is over.
    Lost,
}

/// The state of a game as a mathematical value.
pub struct GameView {
    pub grid: int,
    pub heading: PlayerDirection,
    pub body: Seq<Block>,
    pub food: Block,
}

/// A state the game can be in: a snake of at least one cell and the food,
/// all on a grid of positive size.
pub open spec fn view_wf(v: GameView) -> bool {
    &&& 0 < v.grid <= i32::MAX
    &&& v.body.len() >= 1
    &&& all_in_bounds(v.body, v.grid)
    &&& in_bounds(v.food, v.grid)
}

/// One tick from state `v` with the intents drained this tick. The last move
/// requested wins, unless it reverses a snake longer than one cell. When the
/// cell ahead holds the food, the snake grows onto it and `fresh` becomes the
/// food; otherwise it moves one cell. The tick is lost when the new head lies
/// on the rest of the body.
pub open spec fn spec_step(v: GameView, intents: Seq<Intent>, fresh: Block) -> (GameView, Outcome) {
    let dir = resolved(v.heading, v.body.len() as int, last_move(intents));
    let target = step_from(v.body[0], dir, v.grid);
    if target == v.food {
        let body = seq![target] + v.body;
        (
            GameView { grid: v.grid, heading: dir, body, food: fresh },
            if head_hits_body(body) {
                Outcome::Lost
            } else {
                Outcome::Grew
            },
        )
    } else {
        let body = moved(v.body, target);
        (
            GameView { grid: v.grid, heading: dir, body, food: v.food },
            if head_hits_body(body) {
                Outcome::Lost
            } else {
                Outcome::Continued
            },
        )
    }
}

/// The simulation: the snake and the food on one grid.
pub struct Game {
    player: Player,
    food: Object,
}

impl View for Game {
    type V = GameView;

    closed spec fn view(&self) -> GameView {
        GameView {
            grid: self.player.grid(),
            heading: self.player.heading(),
            body: self.player@,
            food: self.food.body,
        }
    }
}

/// The food lies on the cell the player enters by moving in direction `dir`.
pub fn check_player_object(player: &Player, object_to_eat: &Object, dir: &PlayerDirection) -> (r:
    bool)
    requires
        player.wf(),
    ensures
        r == (object_to_eat.body == player.target(*dir)),
{
    let head = player.head();
    let target = next_block(&head, *dir, player.get_grid_size());
    target == object_to_eat.body
}

impl Game {
    /// A new game: a one-cell snake in the middle heading down, and food on a
    /// random cell.
    pub fn new(grid_size: i32) -> (r: Game)
        requires
            grid_size > 0,
        ensures
            view_wf(r@),
            r@.grid == grid_size,
            r@.heading == PlayerDirection::Down,
            r@.body == seq![Block { x: (grid_size / 2) as i32, y: (grid_size / 2) as i32 }],
    {
        Game { player: Player::new(grid_size), food: Object::new(grid_size) }
    }

    /// A game in the given state, or `None` when that is no state the game
    /// can be in.
    pub fn from_parts(
        grid_size: i32,
        body: &Vec<Block>,
        heading: PlayerDirection,
        food: Block,
    ) -> (r: Option<Game>)
        ensures
            r is Some <==> view_wf(
                GameView { grid: grid_size as int, heading, body: body@, food },
            ),
            r matches Some(g) ==> g@ == (GameView {
                grid: grid_size as int,
                heading,
                body: body@,
                food,
            }),
    {
        let player = Player::from_cells(grid_size, body, heading);
        match player {
            None => None,
            Some(p) => {
                if 0 <= food.x && food.x < grid_size && 0 <= food.y && food.y < grid_size {
                    Some(Game { player: p, food: Object::at(food) })
                } else {
                    None
                }
            },
        }
    }

    /// The snake.
    pub fn player(&self) -> (r: &Player)
        ensures
            r@ == self@.body,
            r.grid() == self@.grid,
            r.heading() == self@.heading,
    {
        &self.player
    }

    /// The cell of the food.
    pub fn food(&self) -> (r: Block)
        ensures
            r == self@.food,
    {
        self.food.body
    }

    /// One tick, with `fresh` as the next food should the snake eat.
    pub fn step_with(&mut self, intents: &Vec<Intent>, fresh: Block) -> (r: Outcome)
        requires
            view_wf(old(self)@),
            in_bounds(fresh, old(self)@.grid),
        ensures
            view_wf(final(self)@),
            (final(self)@, r) == spec_step(old(self)@, intents@, fresh),
    {
        let requested = last_direction(intents);
        let dir = resolve_direction(self.player.get_direction(), self.player.get_size(), requested);
        self.player.set_direction(dir);
        let eats = check_player_object(&self.player, &self.food, &dir);
        if eats {
            let cell = self.food.body;
            self.player.grow(&cell);
            self.food = Object::at(fresh);
        } else {
            self.player.forward(&dir);
        }
        if self.player.check_eat_himself() {
            Outcome::Lost
        } else if eats {
            Outcome::Grew
        } else {
            Outcome::Continued
        }
    }
    /// Draws the next food: a random cell, drawn again while it lands on the
    /// snake or on `eaten`, at most `FOOD_DRAWS` times in all.
    fn spawn_food(&self, eaten: &Block) -> (r: Block)
        requires
            view_wf(self@),
        ensures
            in_bounds(r, self@.grid),
    {
        let g = self.player.get_grid_size();
        let mut cand = Object::new(g).body;
        let mut clash = cand == *eaten || self.player.occupies(&cand);
        let mut tries: u32 = 1;
        while clash && tries < FOOD_DRAWS
            invariant
                g == self@.grid,
                g > 0,
                in_bounds(cand, g as int),
            decreases FOOD_DRAWS - tries,
        {
            cand = Object::new(g).body;
            clash = cand == *eaten || self.player.occupies(&cand);
            tries += 1;
        }
        cand
    }

    /// One tick with the intents drained for it. When the snake eats, the
    /// next food is drawn at random; otherwise the food stays.
    pub fn step(&mut self, intents: &Vec<Intent>) -> (r: Outcome)
        requires
            view_wf(old(self)@),
        ensures
            view_wf(final(self)@),
            (final(self)@, r) == spec_step(old(self)@, intents@, final(self)@.food),
    {
        let requested = last_direction(intents);
        let dir = resolve_direction(self.player.get_direction(), self.player.get_size(), requested);
        let eats = check_player_object(&self.player, &self.food, &dir);
        let fresh = if eats {
            self.spawn_food(&self.food.body)
        } else {
            self.food.body
        };
        self.step_with(intents, fresh)
    }

    /// The picture of the grid, row by row: the snake as `0`, the food as
    /// `*`, empty cells as `.`.
    pub fn frame(&self) -> (r: Vec<Vec<char>>)
        requires
            view_wf(self@),
        ensures
            r@.len() == self@.grid,
            forall|y: int| 0 <= y < self@.grid ==> (#[trigger] r@[y])@.len() == self@.grid,
            forall|y: int, x: int|
                0 <= y < self@.grid && 0 <= x < self@.grid ==> #[trigger] r@[y]@[x] == glyph(
                    self@,
                    x,
                    y,
                ),
    {
        let g = self.player.get_grid_size();
        let mut rows: Vec<Vec<char>> = Vec::new();
        let mut y: i32 = 0;
        while y < g
            invariant
                g == self@.grid,
                0 <= y <= g,
                rows@.len() == y,
                forall|j: int| 0 <= j < y ==> (#[trigger] rows@[j])@.len() == g,
                forall|j: int, x: int|
                    0 <= j < y && 0 <= x < g ==> #[trigger] rows@[j]@[x] == glyph(self@, x, j),
            decreases g - y,
        {
            let mut row: Vec<char> = Vec::new();
            let mut x: i32 = 0;
            while x < g
                invariant
                    g == self@.grid,
                    0 <= y < g,
                    0 <= x <= g,
                    row@.len() == x,
                    forall|i: int| 0 <= i < x ==> #[trigger] row@[i] == glyph(self@, i, y as int),
                decreases g - x,
            {
                let b = Block { x, y };
                let c = if self.player.occupies(&b) {
                    '0'
                } else if self.food.body == b {
                    '*'
                } else {
                    '.'
                };
                row.push(c);
                x += 1;
            }
            rows.push(row);
            y += 1;
        }
        rows
    }
}

/// What the cell at column `x` and row `y` shows.
pub open spec fn glyph(v: GameView, x: int, y: int) -> char {
    let b = Block { x: x as i32, y: y as i32 };
    if v.body.contains(b) {
        '0'
    } else if v.food == b {
        '*'
    } else {
        '.'
    }
}

/// Every state reached by a tick from a valid state, with the next food on
/// the grid, is valid again: the snake keeps at least one cell and every
/// cell stays on the grid.
pub proof fn lemma_step_keeps_state_valid(v: GameView, intents: Seq<Intent>, fresh: Block)
    requires
        view_wf(v),
        in_bounds(fresh, v.grid),
    ensures
        view_wf(spec_step(v, intents, fresh).0),
{
    let dir = resolved(v.heading, v.body.len() as int, last_move(intents));
    let target = step_from(v.body[0], dir, v.grid);
    lemma_step_from_in_bounds(v.body[0], dir, v.grid);
    let body = spec_step(v, intents, fresh).0.body;
    assert forall|i: int| 0 <= i < body.len() implies #[trigger] in_bounds(body[i], v.grid) by {
        if i > 0 {
            assert(body[i] == v.body[i - 1]);
        }
    }
}

/// A step from a cell of the grid stays on the grid.
pub proof fn lemma_step_from_in_bounds(b: Block, d: PlayerDirection, grid_size: int)
    requires
        in_bounds(b, grid_size),
        grid_size <= i32::MAX,
    ensures
        in_bounds(step_from(b, d, grid_size), grid_size),
{
}

/// When the cell ahead holds the food, the snake grows by exactly one cell,
/// its new head is where the food was, and the food moves to the fresh draw.
pub proof fn lemma_growth(v: GameView, intents: Seq<Intent>, fresh: Block)
    requires
        view_wf(v),
        step_from(
            v.body[0],
            resolved(v.heading, v.body.len() as int, last_move(intents)),
            v.grid,
        ) == v.food,
    ensures
        spec_step(v, intents, fresh).0.body.len() == v.body.len() + 1,
        spec_step(v, intents, fresh).0.body[0] == v.food,
        spec_step(v, intents, fresh).0.body.subrange(1, v.body.len() as int + 1) == v.body,
        spec_step(v, intents, fresh).0.food == fresh,
        spec_step(v, intents, fresh).1 != Outcome::Continued,
{
    assert(spec_step(v, intents, fresh).0.body.subrange(1, v.body.len() as int + 1) =~= v.body);
}

/// When the cell ahead is a cell `k` of the body other than the head, and
/// that cell does not leave this tick (it is not the tail, or the snake
/// grows), the tick is lost.
pub proof fn lemma_self_collision(v: GameView, intents: Seq<Intent>, fresh: Block, k: int)
    requires
        view_wf(v),
        1 <= k < v.body.len(),
        step_from(
            v.body[0],
            resolved(v.heading, v.body.len() as int, last_move(intents)),
            v.grid,
        ) == v.body[k],
        k < v.body.len() - 1 || v.body[k] == v.food,
    ensures
        spec_step(v, intents, fresh).1 == Outcome::Lost,
{
    let body = spec_step(v, intents, fresh).0.body;
    assert(body[k + 1] == v.body[k]);
    assert(body[k + 1] == body[0]);
}

/// A tick whose intents end with the same move twice does exactly what the
/// tick with that move once does.
pub proof fn lemma_repeated_move_same_step(
    v: GameView,
    intents: Seq<Intent>,
    d: PlayerDirection,
    fresh: Block,
)
    ensures
        spec_step(v, intents + seq![Intent::Move(d), Intent::Move(d)], fresh) == spec_step(
            v,
            intents + seq![Intent::Move(d)],
            fresh,
        ),
{
    lemma_repeated_move(intents, d);
}

} // verus!
