//! Core of a terminal snake game: a toroidal-grid snake simulation, the
//! mailbox that carries player intents from the input thread to the game
//! loop, and the timing decisions of the fixed-rate loop.

pub mod direction;
pub mod grid;
pub mod snake;
pub mod intent;
pub mod food;
pub mod game;
pub mod queue;
pub mod game_loop;
