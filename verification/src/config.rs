//! Fixed configuration of the game: the play-field bounds, the sizes of the
//! ball and the goals, the movement step, and the screen outline drawn
//! around the field. The game is laid out for a 128x64 pixel display.

use vstd::prelude::*;

verus! {

/// Leftmost x coordinate the ball's top-left corner may reach.
pub const X_MIN: i32 = 0;

/// Rightmost x coordinate the ball's top-left corner may reach.
pub const X_MAX: i32 = 118;

/// Topmost y coordinate the ball's top-left corner may reach.
pub const Y_MIN: i32 = 10;

/// Bottommost y coordinate the ball's top-left corner may reach.
pub const Y_MAX: i32 = 56;

/// Distance the ball moves along an axis in one tick when the
/// corresponding tilt signal asks for movement.
pub const BALL_DELTA: i32 = 2;

/// Side length of the ball's bounding box.
pub const BALL_SIZE: u32 = 8;

/// Side length of each goal's box.
pub const GOAL_SIZE: u32 = 8;

/// x coordinate of the ball at the start of a round.
pub const BALL_START_X: i32 = 88;

/// y coordinate of the ball at the start of a round.
pub const BALL_START_Y: i32 = 20;

/// Number of goals in a round.
pub const GOAL_COUNT: usize = 4;

/// x coordinate of the top-left corner of the play-field outline.
pub const SCREEN_OUTLINE_LEFT: i32 = 0;

/// y coordinate of the top-left corner of the play-field outline.
pub const SCREEN_OUTLINE_TOP: i32 = 9;

/// Width of the play-field outline.
pub const SCREEN_OUTLINE_WIDTH: u32 = 127;

/// Height of the play-field outline.
pub const SCREEN_OUTLINE_HEIGHT: u32 = 55;

} // verus!
