//! The paddles: each frame, a paddle moves up or down by a fixed step while
//! the matching key is held, but only from positions strictly inside the
//! clamping bounds, so it never leaves the playfield.

use vstd::arithmetic::div_mod::{lemma_fundamental_div_mod, lemma_mod_multiples_basic};
use vstd::prelude::*;

use crate::config::{PADDLE_MAX_Y, PADDLE_MIN_Y, PADDLE_SPEED, PADDLE_START_Y};

verus! {

/// The keys a player holds during one frame: one key moves the paddle up,
/// the other down.
#[derive(Clone, Copy, Debug, PartialEq, Eq, Structural)]
pub struct KeysHeld {
    pub up: bool,
    pub down: bool,
}

/// A paddle's center position in subpixel units. The horizontal position is
/// fixed at spawn; only the vertical position changes.
#[derive(Clone, Copy, Debug, PartialEq, Eq, Structural)]
pub struct Paddle {
    pub x: i64,
    pub y: i64,
}

/// Well-formedness of a paddle's vertical position: it lies within the
/// clamping bounds and on the grid of whole movement steps. Every reachable
/// position is on that grid, because the paddle starts on it and each frame
/// moves it by whole steps; on the grid, the pre-move bounds check keeps the
/// position within the bounds.
pub open spec fn paddle_y_wf(y: int) -> bool {
    &&& PADDLE_MIN_Y <= y <= PADDLE_MAX_Y
    &&& y % (PADDLE_SPEED as int) == 0
}

/// Well-formedness of a paddle.
pub open spec fn paddle_wf(p: Paddle) -> bool {
    paddle_y_wf(p.y as int)
}

/// The paddle's vertical position after one frame with the keys in `keys`
/// held: first the up key is honoured, then the down key, each only when the
/// position at that moment is strictly inside the respective bound.
pub open spec fn paddle_y_after_frame(y: int, keys: KeysHeld) -> int {
    let after_up = if keys.up && y < PADDLE_MAX_Y {
        y + PADDLE_SPEED
    } else {
        y
    };
    if keys.down && after_up > PADDLE_MIN_Y {
        after_up - PADDLE_SPEED
    } else {
        after_up
    }
}

/// A position on the movement grid strictly below the upper bound stays
/// within it after one step up, and stays on the grid.
proof fn lemma_step_up_stays_on_grid(y: int)
    requires
        y % (PADDLE_SPEED as int) == 0,
        y < PADDLE_MAX_Y,
    ensures
        y + PADDLE_SPEED <= PADDLE_MAX_Y,
        (y + PADDLE_SPEED) % (PADDLE_SPEED as int) == 0,
{
    let s = PADDLE_SPEED as int;
    lemma_fundamental_div_mod(y, s);
    let q = y / s;
    assert(y == s * q);
    assert(y + PADDLE_SPEED == (q + 1) * s) by (nonlinear_arith)
        requires y == s * q && s == PADDLE_SPEED;
    lemma_mod_multiples_basic(q + 1, s);
    assert(s * q < PADDLE_MAX_Y ==> s * q + s <= PADDLE_MAX_Y) by (nonlinear_arith)
        requires s == PADDLE_SPEED;
}

/// A position on the movement grid strictly above the lower bound stays
/// within it after one step down, and stays on the grid.
proof fn lemma_step_down_stays_on_grid(y: int)
    requires
        y % (PADDLE_SPEED as int) == 0,
        y > PADDLE_MIN_Y,
    ensures
        y - PADDLE_SPEED >= PADDLE_MIN_Y,
        (y - PADDLE_SPEED) % (PADDLE_SPEED as int) == 0,
{
    let s = PADDLE_SPEED as int;
    lemma_fundamental_div_mod(y, s);
    let q = y / s;
    assert(y == s * q);
    assert(y - PADDLE_SPEED == (q - 1) * s) by (nonlinear_arith)
        requires y == s * q && s == PADDLE_SPEED;
    lemma_mod_multiples_basic(q - 1, s);
    assert(s * q > PADDLE_MIN_Y ==> s * q - s >= PADDLE_MIN_Y) by (nonlinear_arith)
        requires s == PADDLE_SPEED;
}

/// One frame preserves a paddle position's well-formedness, whatever keys
/// are held; in particular the position stays within the clamping bounds.
pub proof fn lemma_frame_preserves_paddle_wf(y: int, keys: KeysHeld)
    requires
        paddle_y_wf(y),
    ensures
        paddle_y_wf(paddle_y_after_frame(y, keys)),
{
    if keys.up && y < PADDLE_MAX_Y {
        lemma_step_up_stays_on_grid(y);
    }
    let after_up = paddle_y_after_frame(y, KeysHeld { up: keys.up, down: false });
    if keys.down && after_up > PADDLE_MIN_Y {
        lemma_step_down_stays_on_grid(after_up);
    }
}

/// The paddle's vertical position after a whole sequence of frames, one
/// entry of `inputs` per frame.
pub open spec fn paddle_y_after_frames(y: int, inputs: Seq<KeysHeld>) -> int
    decreases inputs.len(),
{
    if inputs.len() == 0 {
        y
    } else {
        paddle_y_after_frames(paddle_y_after_frame(y, inputs[0]), inputs.drop_first())
    }
}

/// However many frames pass and whatever keys are held in each — including a
/// key held for the whole run — a paddle that starts well-formed stays
/// within the clamping bounds.
pub proof fn lemma_paddle_stays_in_bounds(y: int, inputs: Seq<KeysHeld>)
    requires
        paddle_y_wf(y),
    ensures
        paddle_y_wf(paddle_y_after_frames(y, inputs)),
        PADDLE_MIN_Y <= paddle_y_after_frames(y, inputs) <= PADDLE_MAX_Y,
    decreases inputs.len(),
{
    if inputs.len() > 0 {
        lemma_frame_preserves_paddle_wf(y, inputs[0]);
        lemma_paddle_stays_in_bounds(paddle_y_after_frame(y, inputs[0]), inputs.drop_first());
    }
}

impl Paddle {
    /// A paddle as spawned for a fresh game, at the given horizontal
    /// position and the starting height.
    pub fn spawn(x: i64) -> (p: Paddle)
        ensures
            p.x == x,
            p.y == PADDLE_START_Y,
            paddle_wf(p),
    {
        Paddle { x, y: PADDLE_START_Y }
    }

    /// Advance the paddle by one frame: move up one step if the up key is
    /// held and the paddle is below the upper bound, then down one step if
    /// the down key is held and the paddle is above the lower bound.
    pub fn step(&mut self, keys: KeysHeld)
        requires
            paddle_wf(*old(self)),
        ensures
            final(self).y == paddle_y_after_frame(old(self).y as int, keys),
            final(self).x == old(self).x,
            paddle_wf(*final(self)),
    {
        proof {
            lemma_frame_preserves_paddle_wf(self.y as int, keys);
        }
        if keys.up && self.y < PADDLE_MAX_Y {
            self.y = self.y + PADDLE_SPEED;
        }
        if keys.down && self.y > PADDLE_MIN_Y {
            self.y = self.y - PADDLE_SPEED;
        }
    }
}

} // verus!
