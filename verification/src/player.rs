//! The two players, with each one's serve velocity and paddle color.

use vstd::prelude::*;

verus! {

/// Identifies a side of the field: the paddle, the goal sensor behind the
/// opposite paddle, the ball tint, and the score slot of that player.
#[derive(Clone, Copy, PartialEq, Eq, Structural, Debug)]
pub enum Player {
    Player1,
    Player2,
}

/// A 2D velocity in field units per second.
#[derive(Clone, Copy, PartialEq, Eq, Structural, Debug)]
pub struct Velocity {
    pub vx: i32,
    pub vy: i32,
}

/// The colors the ball sprite can take: white at spawn, then the color of
/// the last paddle it touched.
#[derive(Clone, Copy, PartialEq, Eq, Structural, Debug)]
pub enum TintColor {
    White,
    Red,
    Green,
}

impl Player {
    /// The fixed serve velocity when this player serves: straight toward
    /// the opponent's side at the preset speed of 100 units per second.
    pub open spec fn spec_start_speed(self) -> Velocity {
        match self {
            Player::Player1 => Velocity { vx: 100, vy: 0 },
            Player::Player2 => Velocity { vx: -100i32, vy: 0 },
        }
    }

    pub fn start_speed(&self) -> (v: Velocity)
        ensures
            v == self.spec_start_speed(),
    {
        match self {
            Player::Player1 => Velocity { vx: 100, vy: 0 },
            Player::Player2 => Velocity { vx: -100, vy: 0 },
        }
    }

    /// The color owned by this player: red for the left side, green for the
    /// right side.
    pub open spec fn spec_get_color(self) -> TintColor {
        match self {
            Player::Player1 => TintColor::Red,
            Player::Player2 => TintColor::Green,
        }
    }

    pub fn get_color(&self) -> (c: TintColor)
        ensures
            c == self.spec_get_color(),
    {
        match self {
            Player::Player1 => TintColor::Red,
            Player::Player2 => TintColor::Green,
        }
    }
}

} // verus!
