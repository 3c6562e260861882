//! The two kinds of entity, and what one frame does to each of them.

use vstd::prelude::*;
use crate::input::BoxInput;
use crate::space::{aim, steering, Heading, Point};

verus! {

/// How fast a player moves, in pixels per second.
pub const PLAYER_SPEED: i32 = 400;

/// How fast a bullet flies, in pixels per second.
pub const BULLET_SPEED: i32 = 500;

/// Frames between two shots of one player: half a second.
pub const TIME_TO_RELOAD: u32 = 30;

/// Frames that a bullet lives: one second.
pub const BULLET_LIFETIME: u32 = 60;

/// The frames that an entity has left.
#[derive(Clone, Copy, Debug, PartialEq, Eq, Structural)]
pub struct LifeTime {
    pub val: u32,
}

/// The heading along which an entity flies.
#[derive(Clone, Copy, Debug, PartialEq, Eq, Structural)]
pub struct Velocity {
    pub val: Heading,
}

/// A participant of the session.
#[derive(Clone, Copy, Debug, PartialEq, Eq, Structural)]
pub struct Player {
    /// Which input of a frame steers this player.
    pub handle: usize,
    /// Frames until the player may fire again.
    pub reload_time: u32,
    pub position: Point,
}

/// A shot in flight.
#[derive(Clone, Copy, Debug, PartialEq, Eq, Structural)]
pub struct Bullet {
    pub position: Point,
    pub velocity: Velocity,
    pub lifetime: LifeTime,
}

/// A timer one frame later: it runs down to zero and stays there.
pub open spec fn ticked(timer: u32) -> u32 {
    if timer == 0 {
        0
    } else {
        (timer - 1) as u32
    }
}

/// Runs a timer down by one frame.
fn tick(timer: u32) -> (out: u32)
    ensures
        out == ticked(timer),
{
    if timer == 0 {
        0
    } else {
        timer - 1
    }
}

impl Player {
    /// Whether the player fires in a frame with this input: a fire button
    /// pulls, and the reload timer has run out.
    pub open spec fn fires(self, input: BoxInput) -> bool {
        aim(input.val) != Heading::zero() && self.reload_time == 0
    }

    /// The bullet that the player fires in a frame with this input: it starts
    /// where the player stands after moving, and flies where the fire buttons aim.
    pub open spec fn shot(self, input: BoxInput) -> Bullet {
        Bullet {
            position: self.position.shifted(steering(input.val), PLAYER_SPEED),
            velocity: Velocity { val: aim(input.val) },
            lifetime: LifeTime { val: BULLET_LIFETIME },
        }
    }

    /// The player after a frame with this input: moved, then reloading anew
    /// if a shot was fired, then one frame closer to the next shot.
    pub open spec fn after(self, input: BoxInput) -> Player {
        Player {
            handle: self.handle,
            reload_time: ticked(
                if self.fires(input) {
                    TIME_TO_RELOAD
                } else {
                    self.reload_time
                },
            ),
            position: self.position.shifted(steering(input.val), PLAYER_SPEED),
        }
    }

    /// Plays one frame for this player and hands out the bullet, if one was fired.
    pub fn advance(&mut self, input: BoxInput) -> (fired: Option<Bullet>)
        ensures
            *final(self) == old(self).after(input),
            fired == (if old(self).fires(input) {
                Some(old(self).shot(input))
            } else {
                None
            }),
    {
        self.position = self.position.shift(input.steering(), PLAYER_SPEED);
        let heading = input.aim();
        let mut fired: Option<Bullet> = None;
        if !heading.is_zero() && self.reload_time == 0 {
            fired = Some(
                Bullet {
                    position: self.position,
                    velocity: Velocity { val: heading },
                    lifetime: LifeTime { val: BULLET_LIFETIME },
                },
            );
            self.reload_time = TIME_TO_RELOAD;
        }
        self.reload_time = tick(self.reload_time);
        fired
    }
}

impl Bullet {
    /// The bullet one frame further along its heading.
    pub open spec fn drifted(self) -> Bullet {
        Bullet {
            position: self.position.shifted(self.velocity.val, BULLET_SPEED),
            velocity: self.velocity,
            lifetime: self.lifetime,
        }
    }

    /// The bullet one frame older.
    pub open spec fn aged(self) -> Bullet {
        Bullet {
            position: self.position,
            velocity: self.velocity,
            lifetime: LifeTime { val: ticked(self.lifetime.val) },
        }
    }

    /// Whether the bullet has frames left.
    pub open spec fn alive(self) -> bool {
        self.lifetime.val > 0
    }

    /// Moves the bullet by one frame.
    pub fn drift(&mut self)
        ensures
            *final(self) == old(self).drifted(),
    {
        self.position = self.position.shift(self.velocity.val, BULLET_SPEED);
    }

    /// Ages the bullet by one frame and tells whether it lives on.
    pub fn age(&mut self) -> (lives: bool)
        ensures
            *final(self) == old(self).aged(),
            lives == old(self).aged().alive(),
    {
        self.lifetime.val = tick(self.lifetime.val);
        self.lifetime.val > 0
    }
}

} // verus!
