use vstd::prelude::*;
use crate::game::{Game, Outcome, spec_step, view_wf};
use crate::intent::{Intent, has_quit, wants_quit};

verus! {

/// Microseconds in one second.
pub const MICROS_PER_SECOND: u64 = 1_000_000;

/// Length of one tick, in microseconds, at `fps` ticks per second.
pub fn frame_period_micros(fps: u64) -> (r: u64)
    requires
        fps > 0,
    ensures
        r == MICROS_PER_SECOND / fps,
{
    MICROS_PER_SECOND / fps
}

/// How long the loop waits after a tick that took `elapsed` of a `period`:
/// the rest of the period, or nothing when the tick ran late. No debt is
/// carried to the next tick.
pub fn remaining_wait(elapsed: u64, period: u64) -> (r: u64)
    ensures
        r == (if elapsed < period {
            period - elapsed
        } else {
            0
        }),
{
    if elapsed < period {
        period - elapsed
    } else {
        0
    }
}

/// One turn of the game loop with the intents drained for it: `None` when
/// the player asked to quit, and the game is left as it was; otherwise the
/// game takes one step and its outcome comes back.
pub fn run_tick(game: &mut Game, intents: &Vec<Intent>) -> (r: Option<Outcome>)
    requires
        view_wf(old(game)@),
    ensures
        view_wf(final(game)@),
        r is None <==> has_quit(intents@),
        r is None ==> final(game)@ == old(game)@,
        r matches Some(o) ==> (final(game)@, o) == spec_step(
            old(game)@,
            intents@,
            final(game)@.food,
        ),
{
    if wants_quit(intents) {
        None
    } else {
        Some(game.step(intents))
    }
}

/// Whether the loop goes on after a turn: not after a quit, nor after a
/// lost tick.
pub fn keeps_running(turn: Option<Outcome>) -> (r: bool)
    ensures
        r == (turn matches Some(o) && o != Outcome::Lost),
{
    match turn {
        Some(Outcome::Lost) => false,
        Some(_) => true,
        None => false,
    }
}

} // verus!
