//! Paddle state and per-frame paddle movement: constant-speed motion while
//! a key is held, clamped to the vertical bounds of the play field.

use vstd::prelude::*;

use crate::field::{PADDLE_Y_MAX, PADDLE_Y_MIN};

verus! {

/// A paddle, reduced to the one quantity the game rules read and write:
/// the vertical position of its center.
#[derive(Clone, Copy, PartialEq, Eq, Structural, Debug)]
pub struct Paddle {
    pub y: i32,
}

impl Paddle {
    /// The paddle invariant: its center stays at least half a paddle away
    /// from the top and bottom edges.
    pub open spec fn wf(self) -> bool {
        PADDLE_Y_MIN <= self.y <= PADDLE_Y_MAX
    }
}

/// Clamp `v` into the closed interval `[lo, hi]`.
pub open spec fn spec_clamp(v: int, lo: int, hi: int) -> int {
    if v < lo {
        lo
    } else if v > hi {
        hi
    } else {
        v
    }
}

/// How far a paddle travels while a key is held for `dt_ms` milliseconds:
/// 100 field units per second, rounded down to whole units.
pub open spec fn paddle_shift(dt_ms: u32) -> int {
    100 * dt_ms / 1000
}

/// The new vertical position after one frame: an upward move while the up
/// key is held, then a downward move while the down key is held, each
/// clamped to the field bounds as soon as it is applied.
pub open spec fn spec_move(y: int, up: bool, down: bool, dt_ms: u32) -> int {
    let shift = paddle_shift(dt_ms);
    let y1 = if up {
        spec_clamp(y + shift, PADDLE_Y_MIN as int, PADDLE_Y_MAX as int)
    } else {
        y
    };
    if down {
        spec_clamp(y1 - shift, PADDLE_Y_MIN as int, PADDLE_Y_MAX as int)
    } else {
        y1
    }
}

/// A paddle that starts within the field bounds is still within them
/// after any frame, whatever keys are held and however long the frame
/// took.
pub proof fn lemma_paddle_stays_in_bounds(y: int, up: bool, down: bool, dt_ms: u32)
    requires
        PADDLE_Y_MIN <= y <= PADDLE_Y_MAX,
    ensures
        PADDLE_Y_MIN <= spec_move(y, up, down, dt_ms) <= PADDLE_Y_MAX,
{
}

fn clamp_i64(v: i64, lo: i64, hi: i64) -> (r: i64)
    requires
        lo <= hi,
    ensures
        r == spec_clamp(v as int, lo as int, hi as int),
{
    if v < lo {
        lo
    } else if v > hi {
        hi
    } else {
        v
    }
}

/// Move one paddle for one frame. While a key is held the paddle travels
/// at the fixed rate and is clamped to the field bounds; a paddle that
/// starts within bounds stays within bounds.
pub fn move_paddle(paddle: &mut Paddle, up: bool, down: bool, dt_ms: u32)
    ensures
        final(paddle).y as int == spec_move(old(paddle).y as int, up, down, dt_ms),
        old(paddle).wf() ==> final(paddle).wf(),
        (up || down) ==> final(paddle).wf(),
{
    let shift64: u64 = 100u64 * (dt_ms as u64) / 1000u64;
    assert(shift64 <= 429496729);
    let shift: i64 = shift64 as i64;
    let mut y: i64 = paddle.y as i64;
    if up {
        y = clamp_i64(y + shift, PADDLE_Y_MIN as i64, PADDLE_Y_MAX as i64);
    }
    if down {
        y = clamp_i64(y - shift, PADDLE_Y_MIN as i64, PADDLE_Y_MAX as i64);
    }
    paddle.y = y as i32;
}

} // verus!
