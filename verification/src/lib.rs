//! Game-state core of a two-player Pong game: paddle movement with
//! clamping, collision-driven events, ball reset, and score accumulation.
//! The host engine (windowing, input polling, physics, rendering) feeds
//! plain values into these functions each frame and applies the results.

pub mod ball;
pub mod digits;
pub mod events;
pub mod field;
pub mod game;
pub mod paddle;
pub mod player;
mod rng;
pub mod score;

pub use player::Player;
