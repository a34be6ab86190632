use vstd::prelude::*;

verus! {

/// One of the four directions in which the snake can travel.
#[derive(Debug, Clone, Copy, PartialEq, Eq, Structural)]
pub enum PlayerDirection {
    Down,
    Up,
    Left,
    Right,
}

/// The direction pointing the other way.
pub open spec fn opposite_of(d: PlayerDirection) -> PlayerDirection {
    match d {
        PlayerDirection::Up => PlayerDirection::Down,
        PlayerDirection::Down => PlayerDirection::Up,
        PlayerDirection::Left => PlayerDirection::Right,
        PlayerDirection::Right => PlayerDirection::Left,
    }
}

impl PlayerDirection {
    pub fn opposite(&self) -> (r: PlayerDirection)
        ensures
            r == opposite_of(*self),
    {
        match *self {
            PlayerDirection::Up => PlayerDirection::Down,
            PlayerDirection::Down => PlayerDirection::Up,
            PlayerDirection::Left => PlayerDirection::Right,
            PlayerDirection::Right => PlayerDirection::Left,
        }
    }
}

/// Taking the opposite twice gives the direction back.
pub proof fn lemma_opposite_involutive(d: PlayerDirection)
    ensures
        opposite_of(opposite_of(d)) == d,
        opposite_of(d) != d,
{
}

} // verus!
