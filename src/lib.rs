//! A side-scrolling obstacle game for a small monochrome display: player
//! physics, a scrolling obstacle field, collision and pickup rules, the
//! run-state machine that gates ticking, and the shapes each frame shows.
use vstd::prelude::*;

pub mod draw;
pub mod field;
pub mod game;
pub mod player;
pub mod run_state;

verus! {

/// A simulation that advances one frame at a time.
pub trait Tick {
    /// Whether the state is one that `tick` accepts.
    spec fn tick_ready(&self) -> bool;

    /// Advances one frame from the random input and the boop button; returns
    /// whether the game is over.
    fn tick(&mut self, frame_count: u32, random_byte: u8, random_bool: bool, boop: bool) -> (over: bool)
        requires
            old(self).tick_ready(),
        ensures
            final(self).tick_ready(),
    ;
}

} // verus!
