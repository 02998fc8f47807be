//! Geometry of the play field, in whole field units (pixels).

use vstd::prelude::*;

verus! {

/// Width of the window and of the play field.
pub const FIELD_WIDTH: i32 = 1280;

/// Height of the window and of the play field.
pub const FIELD_HEIGHT: i32 = 720;

/// Half the height of a paddle; paddle centers are kept this far away
/// from the top and bottom edges.
pub const PADDLE_HALF_HEIGHT: i32 = 75;

/// Radius of the ball sprite and of its circular collider.
pub const BALL_RADIUS: i32 = 25;

/// Highest vertical position a paddle center may reach: half the field
/// height minus half a paddle.
pub const PADDLE_Y_MAX: i32 = 285;

/// Lowest vertical position a paddle center may reach: half a paddle
/// above the bottom edge.
pub const PADDLE_Y_MIN: i32 = -285;

} // verus!
