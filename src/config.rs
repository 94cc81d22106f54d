use vstd::prelude::*;

verus! {

/// Width of the window, in pixels.
pub const WINDOW_WIDTH: i32 = 1080;

/// Height of the window, in pixels.
pub const WINDOW_HEIGHT: i32 = 720;

/// Side of the square ball.
pub const BALL_SIZE: i32 = 20;

/// Distance the ball covers in one frame.
pub const BALL_SPEED: i32 = 12;

/// Width of a paddle.
pub const PADDLE_WIDTH: i32 = 15;

/// Height of a paddle.
pub const PADDLE_HEIGHT: i32 = 100;

/// Vertical distance a paddle covers in one frame while its key is held.
pub const PADDLE_SPEED: i32 = 8;

/// Horizontal distance from a side of the window to the nearer paddle's
/// center: a tenth of the window's width.
pub const PADDLE_INSET: i32 = 108;

/// Horizontal center of the left paddle.
pub const PADDLE1_X: i32 = PADDLE_INSET;

/// Horizontal center of the right paddle.
pub const PADDLE2_X: i32 = WINDOW_WIDTH - PADDLE_INSET;

/// Half a paddle's height: the smallest value a paddle's center takes. An "up" key
/// moves the paddle only while its center is above it.
pub const PADDLE_Y_MIN: i32 = 50;

/// The largest value a paddle's center takes. A "down" key moves the paddle only
/// while its center is below it.
pub const PADDLE_Y_MAX: i32 = WINDOW_HEIGHT - PADDLE_Y_MIN;

/// Half the ball's travel per frame: the tolerance band of every collision test.
pub const TOLERANCE: i32 = 6;

/// Largest vertical distance between ball and paddle centers at which they
/// touch: half a paddle's height plus half the ball's size.
pub const MAX_SLOPE: i32 = 60;

/// Real-time pause before a round starts, in milliseconds.
pub const SERVE_DELAY_MS: u64 = 2000;

/// Frames drawn per second.
pub const FRAMES_PER_SECOND: u32 = 60;

/// Frames drawn while waiting to serve: the serve delay at the frame rate.
pub const SERVE_DELAY_FRAMES: u32 = 120;

/// The constants written out as literals agree with the sizes they derive from.
pub proof fn lemma_config_consistent()
    ensures
        PADDLE_INSET == WINDOW_WIDTH / 10,
        PADDLE_Y_MIN == PADDLE_HEIGHT / 2,
        TOLERANCE == BALL_SPEED / 2,
        MAX_SLOPE == PADDLE_HEIGHT / 2 + BALL_SIZE / 2,
        SERVE_DELAY_FRAMES == SERVE_DELAY_MS * FRAMES_PER_SECOND / 1000,
{
}

} // verus!
