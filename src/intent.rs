use vstd::prelude::*;
use crate::direction::{PlayerDirection, opposite_of};

verus! {

/// What the player asked for with one key press.
#[derive(Debug, Clone, Copy, PartialEq, Eq, Structural)]
pub enum Intent {
    Move(PlayerDirection),
    Quit,
}

/// A key press as the input thread reads it from the terminal.
#[derive(Debug, Clone, Copy, PartialEq, Eq, Structural)]
pub enum KeyCode {
    Char(char),
    Ctrl(char),
    Up,
    Down,
    Left,
    Right,
    Esc,
    Other,
}

/// The intent a key stands for: `z`/`s`/`q`/`d` and the arrow keys move,
/// `a` and Ctrl-C quit, every other key means nothing.
pub open spec fn key_intent(k: KeyCode) -> Option<Intent> {
    match k {
        KeyCode::Char('a') => Some(Intent::Quit),
        KeyCode::Ctrl('c') => Some(Intent::Quit),
        KeyCode::Char('s') | KeyCode::Down => Some(Intent::Move(PlayerDirection::Down)),
        KeyCode::Char('z') | KeyCode::Up => Some(Intent::Move(PlayerDirection::Up)),
        KeyCode::Char('q') | KeyCode::Left => Some(Intent::Move(PlayerDirection::Left)),
        KeyCode::Char('d') | KeyCode::Right => Some(Intent::Move(PlayerDirection::Right)),
        _ => None,
    }
}

/// Maps a key press to the intent it stands for, if any.
pub fn classify_key(k: KeyCode) -> (r: Option<Intent>)
    ensures
        r == key_intent(k),
{
    match k {
        KeyCode::Char('a') => Some(Intent::Quit),
        KeyCode::Ctrl('c') => Some(Intent::Quit),
        KeyCode::Char('s') | KeyCode::Down => Some(Intent::Move(PlayerDirection::Down)),
        KeyCode::Char('z') | KeyCode::Up => Some(Intent::Move(PlayerDirection::Up)),
        KeyCode::Char('q') | KeyCode::Left => Some(Intent::Move(PlayerDirection::Left)),
        KeyCode::Char('d') | KeyCode::Right => Some(Intent::Move(PlayerDirection::Right)),
        _ => None,
    }
}

/// The most recent move in a batch of intents; earlier moves are ignored.
pub open spec fn last_move(s: Seq<Intent>) -> Option<PlayerDirection>
    decreases s.len(),
{
    if s.len() == 0 {
        None
    } else {
        match s.last() {
            Intent::Move(d) => Some(d),
            Intent::Quit => last_move(s.drop_last()),
        }
    }
}

/// The batch holds a request to quit.
pub open spec fn has_quit(s: Seq<Intent>) -> bool {
    s.contains(Intent::Quit)
}

/// The direction a snake of `size` cells heading `current` takes when
/// `requested` was asked for: a reversal is refused unless the snake is a
/// single cell; no request keeps the current direction.
pub open spec fn resolved(
    current: PlayerDirection,
    size: int,
    requested: Option<PlayerDirection>,
) -> PlayerDirection {
    match requested {
        None => current,
        Some(d) => if d == opposite_of(current) && size > 1 {
            current
        } else {
            d
        },
    }
}

/// The last move of the batch, if it holds one.
pub fn last_direction(intents: &Vec<Intent>) -> (r: Option<PlayerDirection>)
    ensures
        r == last_move(intents@),
{
    let n = intents.len();
    let mut found: Option<PlayerDirection> = None;
    let mut i: usize = 0;
    while i < n
        invariant
            n == intents@.len(),
            i <= n,
            found == last_move(intents@.take(i as int)),
        decreases n - i,
    {
        proof {
            let t = intents@.take(i as int + 1);
            assert(t.drop_last() =~= intents@.take(i as int));
            assert(t.last() == intents@[i as int]);
        }
        match intents[i] {
            Intent::Move(d) => {
                found = Some(d);
            },
            Intent::Quit => {},
        }
        i += 1;
    }
    assert(intents@.take(n as int) =~= intents@);
    found
}

/// Whether the batch holds a request to quit.
pub fn wants_quit(intents: &Vec<Intent>) -> (r: bool)
    ensures
        r == has_quit(intents@),
{
    let n = intents.len();
    let mut i: usize = 0;
    while i < n
        invariant
            n == intents@.len(),
            i <= n,
            forall|j: int| 0 <= j < i ==> #[trigger] intents@[j] != Intent::Quit,
        decreases n - i,
    {
        if intents[i] == Intent::Quit {
            assert(intents@[i as int] == Intent::Quit);
            return true;
        }
        i += 1;
    }
    false
}

/// The direction to travel this tick, from the current one, the snake's
/// length and the move requested, if any.
pub fn resolve_direction(
    current: PlayerDirection,
    size: usize,
    requested: Option<PlayerDirection>,
) -> (r: PlayerDirection)
    ensures
        r == resolved(current, size as int, requested),
{
    match requested {
        None => current,
        Some(d) => if d == current.opposite() && size > 1 {
            current
        } else {
            d
        },
    }
}

/// Sending the same move twice at the end of a batch acts as sending it once.
pub proof fn lemma_repeated_move(s: Seq<Intent>, d: PlayerDirection)
    ensures
        last_move(s + seq![Intent::Move(d), Intent::Move(d)]) == last_move(
            s + seq![Intent::Move(d)],
        ),
        last_move(s + seq![Intent::Move(d)]) == Some(d),
{
    let a = s + seq![Intent::Move(d), Intent::Move(d)];
    let b = s + seq![Intent::Move(d)];
    assert(a.last() == Intent::Move(d));
    assert(b.last() == Intent::Move(d));
}

/// A reversal is refused for a snake longer than one cell, and granted to a
/// snake of a single cell.
pub proof fn lemma_reversal_guard(current: PlayerDirection, size: int)
    requires
        size >= 1,
    ensures
        size > 1 ==> resolved(current, size, Some(opposite_of(current))) == current,
        size == 1 ==> resolved(current, size, Some(opposite_of(current))) == opposite_of(
            current,
        ),
{
}

} // verus!
