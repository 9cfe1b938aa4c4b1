//! Fixed dimensions and speeds of the playfield, paddles, ball and the
//! decorative middle line, all in subpixel units.

use vstd::prelude::*;

verus! {

/// How many subpixel units make one pixel on screen.
pub const SUBPIXELS_PER_PIXEL: i64 = 1000;

/// Width of the playfield (640 pixels).
pub const WINDOW_WIDTH: i64 = 640 * 1000;

/// Height of the playfield (480 pixels).
pub const WINDOW_HEIGHT: i64 = 480 * 1000;

/// Width of a paddle (10 pixels).
pub const PADDLE_WIDTH: i64 = 10 * 1000;

/// Height of a paddle (80 pixels).
pub const PADDLE_HEIGHT: i64 = 80 * 1000;

/// Horizontal gap between a paddle's near edge and its side of the screen
/// (20 pixels).
pub const PADDLE_OFFSET_X: i64 = 20 * 1000;

/// Vertical position of both paddles when the game starts.
pub const PADDLE_START_Y: i64 = 0;

/// How far a paddle moves in one frame while a key is held (5 pixels).
pub const PADDLE_SPEED: i64 = 5 * 1000;

/// Highest vertical position the paddle's center may reach: half the window
/// height less half the paddle height, so the paddle's top edge touches the
/// top of the playfield.
pub const PADDLE_MAX_Y: i64 = 200 * 1000;

/// Lowest vertical position the paddle's center may reach: the mirror image
/// of the highest, so the paddle's bottom edge touches the bottom of the
/// playfield.
pub const PADDLE_MIN_Y: i64 = -200 * 1000;

/// Horizontal position of the ball when the game starts (screen center).
pub const BALL_START_X: i64 = 0;

/// Vertical position of the ball; it never changes.
pub const BALL_START_Y: i64 = 0;

/// Radius of the ball (10 pixels).
pub const BALL_RADIUS: i64 = 10 * 1000;

/// Speed of the ball in subpixels per millisecond (150 pixels per second).
pub const BALL_SPEED: i64 = 150;

/// Rightmost position of the ball's center before its direction flips: half
/// the window width less the ball radius, so the ball's leading edge touches
/// the right boundary.
pub const BALL_MAX_X: i64 = 310 * 1000;

/// Leftmost position of the ball's center before its direction flips: the
/// mirror image of the rightmost, so the leading edge touches the left
/// boundary.
pub const BALL_MIN_X: i64 = -310 * 1000;

/// The farthest the ball can travel in a single frame: its speed times the
/// largest elapsed time a frame can report.
pub const BALL_MAX_STEP: i64 = BALL_SPEED * 4294967295;

/// Width of one middle-line segment (10 pixels).
pub const MIDDLE_LINE_WIDTH: i64 = 10 * 1000;

/// Height of one middle-line segment (10 pixels).
pub const MIDDLE_LINE_HEIGHT: i64 = 10 * 1000;

/// Vertical gap between consecutive middle-line segments (10 pixels).
pub const MIDDLE_LINE_GAP: i64 = 10 * 1000;

/// The paddle's clamping bounds come from the window and paddle heights, and
/// the ball's flip thresholds from the window width and the ball radius.
pub proof fn lemma_bounds_from_dimensions()
    ensures
        2 * PADDLE_MAX_Y == WINDOW_HEIGHT - PADDLE_HEIGHT,
        PADDLE_MIN_Y == -PADDLE_MAX_Y,
        2 * BALL_MAX_X == WINDOW_WIDTH - 2 * BALL_RADIUS,
        BALL_MIN_X == -BALL_MAX_X,
        BALL_MAX_STEP == BALL_SPEED * (u32::MAX as int),
{
}

} // verus!
