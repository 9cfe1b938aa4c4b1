//! The scene: the two paddles at mirrored offsets, the ball at the screen
//! center, and the decorative middle line, spawned once and then mutated one
//! frame at a time.

use vstd::prelude::*;

use crate::ball::{ball_wf, Ball, Direction};
use crate::config::{
    BALL_START_X, BALL_START_Y, MIDDLE_LINE_GAP, MIDDLE_LINE_HEIGHT, PADDLE_OFFSET_X,
    PADDLE_START_Y, PADDLE_WIDTH, WINDOW_HEIGHT, WINDOW_WIDTH,
};
use crate::paddle::{paddle_wf, KeysHeld, Paddle};

verus! {

/// One decorative segment of the middle line. Static: never mutated after
/// spawn.
#[derive(Clone, Copy, Debug, PartialEq, Eq, Structural)]
pub struct Segment {
    pub x: i64,
    pub y: i64,
}

/// The whole playfield: both paddles, the ball, and the middle line.
pub struct Scene {
    pub left_paddle: Paddle,
    pub right_paddle: Paddle,
    pub ball: Ball,
    pub middle_line: Vec<Segment>,
}

/// Horizontal center of the left paddle: its near edge sits a fixed offset
/// in from the left side of the screen.
pub open spec fn left_paddle_x() -> int {
    -(WINDOW_WIDTH as int) / 2 + PADDLE_WIDTH / 2 + PADDLE_OFFSET_X
}

/// Horizontal center of the right paddle: the mirror image of the left.
pub open spec fn right_paddle_x() -> int {
    (WINDOW_WIDTH as int) / 2 - PADDLE_WIDTH / 2 - PADDLE_OFFSET_X
}

/// How many middle-line segments the window holds: one per segment-plus-gap
/// slice of the window height, rounded down.
pub open spec fn middle_line_count() -> int {
    WINDOW_HEIGHT as int / (MIDDLE_LINE_HEIGHT + MIDDLE_LINE_GAP) as int
}

/// Vertical center of middle-line segment `i`, counted from the bottom of
/// the screen: segments sit two gap heights apart, the first one gap height
/// above the bottom edge.
pub open spec fn middle_line_y(i: int) -> int {
    i * (MIDDLE_LINE_GAP + MIDDLE_LINE_GAP) as int + MIDDLE_LINE_GAP - WINDOW_HEIGHT as int / 2
}

/// The middle line as spawned: the right count of segments, each centered
/// horizontally at its place in the ladder.
pub open spec fn middle_line_wf(segments: Seq<Segment>) -> bool {
    &&& segments.len() == middle_line_count()
    &&& forall|i: int|
        0 <= i < segments.len() ==> #[trigger] segments[i] == (Segment {
            x: 0,
            y: middle_line_y(i) as i64,
        })
}

/// Well-formedness of the whole scene: both paddles and the ball are
/// well-formed, the paddles stand at their mirrored horizontal offsets, and
/// the middle line is the one spawned.
pub open spec fn scene_wf(s: Scene) -> bool {
    &&& paddle_wf(s.left_paddle)
    &&& paddle_wf(s.right_paddle)
    &&& s.left_paddle.x == left_paddle_x()
    &&& s.right_paddle.x == right_paddle_x()
    &&& ball_wf(s.ball)
    &&& middle_line_wf(s.middle_line@)
}

impl Scene {
    /// Spawn a fresh game: the ball at the screen center moving toward the
    /// left edge, the paddles at their fixed mirrored offsets and starting
    /// height, and the middle line laid out down the center.
    pub fn spawn() -> (s: Scene)
        ensures
            s.ball.x == BALL_START_X,
            s.ball.y == BALL_START_Y,
            s.ball.direction == Direction::Left,
            s.left_paddle.x == left_paddle_x(),
            s.right_paddle.x == right_paddle_x(),
            s.left_paddle.x == -s.right_paddle.x,
            s.left_paddle.y == PADDLE_START_Y,
            s.right_paddle.y == PADDLE_START_Y,
            scene_wf(s),
    {
        let left_x: i64 = -WINDOW_WIDTH / 2 + PADDLE_WIDTH / 2 + PADDLE_OFFSET_X;
        let right_x: i64 = WINDOW_WIDTH / 2 - PADDLE_WIDTH / 2 - PADDLE_OFFSET_X;
        Scene {
            left_paddle: Paddle::spawn(left_x),
            right_paddle: Paddle::spawn(right_x),
            ball: Ball::spawn(),
            middle_line: spawn_middle_line(),
        }
    }

    /// Advance the scene by one frame: each paddle moves by its player's
    /// held keys, the ball travels for the elapsed time and flips at the
    /// boundaries, and the middle line stays as it was.
    pub fn step(&mut self, dt_ms: u32, left_keys: KeysHeld, right_keys: KeysHeld)
        requires
            scene_wf(*old(self)),
        ensures
            final(self).left_paddle.y == crate::paddle::paddle_y_after_frame(
                old(self).left_paddle.y as int,
                left_keys,
            ),
            final(self).right_paddle.y == crate::paddle::paddle_y_after_frame(
                old(self).right_paddle.y as int,
                right_keys,
            ),
            final(self).ball.x == crate::ball::moved_x(
                old(self).ball.x as int,
                old(self).ball.direction,
                dt_ms,
            ),
            final(self).ball.direction == crate::ball::direction_after(
                final(self).ball.x as int,
                old(self).ball.direction,
            ),
            final(self).left_paddle.x == old(self).left_paddle.x,
            final(self).right_paddle.x == old(self).right_paddle.x,
            final(self).ball.y == old(self).ball.y,
            final(self).middle_line@ == old(self).middle_line@,
            scene_wf(*final(self)),
    {
        self.left_paddle.step(left_keys);
        self.right_paddle.step(right_keys);
        self.ball.step(dt_ms);
    }
}

/// Spawn the middle line: one segment per segment-plus-gap slice of the
/// window height, laid out from the bottom of the screen upward.
pub fn spawn_middle_line() -> (segments: Vec<Segment>)
    ensures
        middle_line_wf(segments@),
{
    let count: i64 = WINDOW_HEIGHT / (MIDDLE_LINE_HEIGHT + MIDDLE_LINE_GAP);
    let mut segments: Vec<Segment> = Vec::new();
    let mut i: i64 = 0;
    while i < count
        invariant
            0 <= i <= count,
            count == middle_line_count(),
            segments@.len() == i,
            forall|j: int|
                0 <= j < i ==> #[trigger] segments@[j] == (Segment {
                    x: 0,
                    y: middle_line_y(j) as i64,
                }),
        decreases count - i,
    {
        let y: i64 = i * (MIDDLE_LINE_GAP + MIDDLE_LINE_GAP) + MIDDLE_LINE_GAP - WINDOW_HEIGHT / 2;
        segments.push(Segment { x: 0, y });
        i = i + 1;
    }
    segments
}

} // verus!
