//! The player: a falling ball with an upward impulse and a ceiling.
use vstd::prelude::*;

verus! {

/// Downward acceleration once the player has booped.
pub const GRAVITY: i32 = 1;

/// Velocity that a boop sets.
pub const BOOP_VELOCITY: i32 = -4;

/// Lowest position (the highest point on screen) the player can reach.
pub const POSITION_FLOOR: i32 = -100;

/// Position of a new player.
pub const START_POSITION: i32 = 5;

/// Vertical state of the player, in pixels and pixels per tick.
#[derive(Clone, Copy, Debug, PartialEq, Eq)]
pub struct Player {
    pub position: i32,
    pub velocity: i32,
    pub acceleration: i32,
}

/// The player after a boop: velocity set upward, gravity switched on.
pub open spec fn booped(p: Player) -> Player {
    Player { velocity: BOOP_VELOCITY, acceleration: GRAVITY, ..p }
}

/// Position after moving by `velocity`, held at the floor.
pub open spec fn moved_position(position: int, velocity: int) -> int {
    if position + velocity < POSITION_FLOOR {
        POSITION_FLOOR as int
    } else {
        position + velocity
    }
}

/// Whether one integration step stays within `i32`.
pub open spec fn integrable(p: Player) -> bool {
    &&& i32::MIN <= p.position + p.velocity <= i32::MAX
    &&& i32::MIN <= p.velocity + p.acceleration <= i32::MAX
}

/// The player after one integration step.
pub open spec fn integrated(p: Player) -> Player {
    Player {
        position: moved_position(p.position as int, p.velocity as int) as i32,
        velocity: (p.velocity + p.acceleration) as i32,
        acceleration: p.acceleration,
    }
}

impl Player {
    /// A player at rest at the start position, without gravity.
    pub fn new() -> (r: Self)
        ensures
            r == (Player { position: START_POSITION, velocity: 0, acceleration: 0 }),
    {
        Player { position: START_POSITION, velocity: 0, acceleration: 0 }
    }

    /// The upward impulse of a boop.
    pub fn apply_impulse(&mut self)
        ensures
            *final(self) == booped(*old(self)),
    {
        self.velocity = BOOP_VELOCITY;
        self.acceleration = GRAVITY;
    }

    /// One step: the position moves by the velocity, no higher than the
    /// floor, then the velocity grows by the acceleration.
    pub fn integrate(&mut self)
        requires
            integrable(*old(self)),
        ensures
            *final(self) == integrated(*old(self)),
    {
        let moved = self.position + self.velocity;
        self.position = if moved < POSITION_FLOOR { POSITION_FLOOR } else { moved };
        self.velocity = self.velocity + self.acceleration;
    }
}

} // verus!
