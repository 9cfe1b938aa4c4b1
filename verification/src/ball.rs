//! The ball: it moves horizontally at a fixed speed and flips direction when
//! its leading edge crosses the left or right boundary of the playfield.

use vstd::prelude::*;

use crate::config::{BALL_MAX_STEP, BALL_MAX_X, BALL_MIN_X, BALL_SPEED, BALL_START_X, BALL_START_Y};

verus! {

/// Which way the ball is travelling along the horizontal axis.
#[derive(Clone, Copy, Debug, PartialEq, Eq, Structural)]
pub enum Direction {
    /// Toward negative x (the left edge of the screen).
    Left,
    /// Toward positive x (the right edge of the screen).
    Right,
}

/// The ball's center position in subpixel units and its direction of travel.
/// Only the horizontal position ever changes.
#[derive(Clone, Copy, Debug, PartialEq, Eq, Structural)]
pub struct Ball {
    pub x: i64,
    pub y: i64,
    pub direction: Direction,
}

/// Well-formedness of a ball between frames. The position may overshoot a
/// flip threshold by at most one frame's travel, because a frame first moves
/// the ball and only then flips its direction; whenever the position lies
/// beyond a threshold, the direction already points back into the playfield.
pub open spec fn ball_wf(b: Ball) -> bool {
    &&& BALL_MIN_X - BALL_MAX_STEP <= b.x <= BALL_MAX_X + BALL_MAX_STEP
    &&& (b.x < BALL_MIN_X ==> b.direction == Direction::Right)
    &&& (b.x > BALL_MAX_X ==> b.direction == Direction::Left)
    &&& b.y == BALL_START_Y
}

/// Where the ball's center lands after travelling for `dt_ms` milliseconds
/// in direction `dir` from position `x`.
pub open spec fn moved_x(x: int, dir: Direction, dt_ms: u32) -> int {
    if dir == Direction::Left {
        x - BALL_SPEED * dt_ms
    } else {
        x + BALL_SPEED * dt_ms
    }
}

/// The direction after the boundary check at position `x`: toward the right
/// if the center lies beyond the left threshold, toward the left if it lies
/// beyond the right threshold, and unchanged otherwise.
pub open spec fn direction_after(x: int, dir: Direction) -> Direction {
    if x < BALL_MIN_X {
        Direction::Right
    } else if x > BALL_MAX_X {
        Direction::Left
    } else {
        dir
    }
}

impl Ball {
    /// The ball as spawned for a fresh game: at the screen center, moving
    /// toward the left edge.
    pub fn spawn() -> (b: Ball)
        ensures
            b.x == BALL_START_X,
            b.y == BALL_START_Y,
            b.direction == Direction::Left,
            ball_wf(b),
    {
        Ball { x: BALL_START_X, y: BALL_START_Y, direction: Direction::Left }
    }

    /// Advance the ball by one frame: travel for the elapsed `dt_ms`
    /// milliseconds, then flip the direction if the new position lies beyond
    /// a boundary threshold.
    pub fn step(&mut self, dt_ms: u32)
        requires
            ball_wf(*old(self)),
        ensures
            final(self).x == moved_x(old(self).x as int, old(self).direction, dt_ms),
            final(self).direction == direction_after(final(self).x as int, old(self).direction),
            final(self).y == old(self).y,
            ball_wf(*final(self)),
    {
        let travel: i64 = BALL_SPEED * (dt_ms as i64);
        match self.direction {
            Direction::Left => {
                self.x = self.x - travel;
            },
            Direction::Right => {
                self.x = self.x + travel;
            },
        }
        if self.x < BALL_MIN_X {
            self.direction = Direction::Right;
        } else if self.x > BALL_MAX_X {
            self.direction = Direction::Left;
        }
    }
}

/// Over one frame the direction changes exactly when the moved position
/// crosses a boundary threshold: past the left threshold while travelling
/// left, or past the right threshold while travelling right — and nowhere
/// else.
pub proof fn lemma_flip_only_at_boundaries(b: Ball, dt_ms: u32)
    requires
        ball_wf(b),
    ensures
        direction_after(moved_x(b.x as int, b.direction, dt_ms), b.direction) != b.direction
            <==> {
                let x = moved_x(b.x as int, b.direction, dt_ms);
                ||| (x < BALL_MIN_X && b.direction == Direction::Left)
                ||| (x > BALL_MAX_X && b.direction == Direction::Right)
            },
{
}

/// With zero elapsed time the ball does not move, and — of a well-formed
/// ball — its direction does not change either.
pub proof fn lemma_zero_elapsed_time_holds_still(b: Ball)
    requires
        ball_wf(b),
    ensures
        moved_x(b.x as int, b.direction, 0) == b.x,
        direction_after(b.x as int, b.direction) == b.direction,
{
}

} // verus!
