use vstd::prelude::*;
use crate::config::{BALL_SIZE, PADDLE1_X, PADDLE2_X, PADDLE_HEIGHT, PADDLE_WIDTH, WINDOW_HEIGHT, WINDOW_WIDTH};
use crate::game::Game;

verus! {

/// An axis-aligned rectangle on screen: top-left corner and size.
#[derive(Clone, Copy, Debug, PartialEq, Eq, Structural)]
pub struct ScreenRect {
    pub x: i32,
    pub y: i32,
    pub width: u32,
    pub height: u32,
}

/// The rectangle of the given size centered on `(cx, cy)`, the corner
/// rounded as the integer halves of the size give it.
pub open spec fn centered(cx: int, cy: int, width: int, height: int) -> ScreenRect {
    ScreenRect {
        x: (cx - width / 2) as i32,
        y: (cy - height / 2) as i32,
        width: width as u32,
        height: height as u32,
    }
}

/// Decimal digits of `n` in ASCII, most significant first, without leading zeros.
pub open spec fn decimal(n: nat) -> Seq<u8>
    decreases n,
{
    if n < 10 {
        seq![(48 + n) as u8]
    } else {
        decimal(n / 10).push((48 + n % 10) as u8)
    }
}

/// What stands between the two scores: a dash with five spaces on each side.
pub open spec fn score_separator() -> Seq<u8> {
    seq![32u8, 32u8, 32u8, 32u8, 32u8, 45u8, 32u8, 32u8, 32u8, 32u8, 32u8]
}

/// The score line as ASCII text: player 1's score, the separator, player 2's.
pub open spec fn score_text(p1: nat, p2: nat) -> Seq<u8> {
    decimal(p1) + score_separator() + decimal(p2)
}

impl Game {
    /// Where the ball is drawn.
    pub fn ball_rect(&self) -> (r: ScreenRect)
        requires
            self.wf(),
        ensures
            r == centered(self.ball_x as int, self.ball_y as int, BALL_SIZE as int, BALL_SIZE as int),
    {
        ScreenRect {
            x: self.ball_x - BALL_SIZE / 2,
            y: self.ball_y - BALL_SIZE / 2,
            width: BALL_SIZE as u32,
            height: BALL_SIZE as u32,
        }
    }

    /// Where the left paddle is drawn.
    pub fn paddle1_rect(&self) -> (r: ScreenRect)
        requires
            self.wf(),
        ensures
            r == centered(
                PADDLE1_X as int,
                self.paddle1_y as int,
                PADDLE_WIDTH as int,
                PADDLE_HEIGHT as int,
            ),
    {
        ScreenRect {
            x: PADDLE1_X - PADDLE_WIDTH / 2,
            y: self.paddle1_y - PADDLE_HEIGHT / 2,
            width: PADDLE_WIDTH as u32,
            height: PADDLE_HEIGHT as u32,
        }
    }

    /// Where the right paddle is drawn.
    pub fn paddle2_rect(&self) -> (r: ScreenRect)
        requires
            self.wf(),
        ensures
            r == centered(
                PADDLE2_X as int,
                self.paddle2_y as int,
                PADDLE_WIDTH as int,
                PADDLE_HEIGHT as int,
            ),
    {
        ScreenRect {
            x: PADDLE2_X - PADDLE_WIDTH / 2,
            y: self.paddle2_y - PADDLE_HEIGHT / 2,
            width: PADDLE_WIDTH as u32,
            height: PADDLE_HEIGHT as u32,
        }
    }

    /// The score line of this state.
    pub fn score_label(&self) -> (r: Vec<u8>)
        ensures
            r@ == score_text(self.score_p1 as nat, self.score_p2 as nat),
    {
        score_label(self.score_p1, self.score_p2)
    }
}

/// Appends the decimal digits of `n`.
fn push_decimal(out: &mut Vec<u8>, n: u32)
    ensures
        final(out)@ == old(out)@ + decimal(n as nat),
    decreases n,
{
    if n >= 10 {
        push_decimal(out, n / 10);
    }
    out.push(48u8 + (n % 10) as u8);
    proof {
        if n < 10 {
            assert(n % 10 == n);
        }
        assert(final(out)@ =~= old(out)@ + decimal(n as nat));
    }
}

/// The score line for the given scores.
pub fn score_label(p1: u32, p2: u32) -> (r: Vec<u8>)
    ensures
        r@ == score_text(p1 as nat, p2 as nat),
{
    let mut r: Vec<u8> = Vec::new();
    push_decimal(&mut r, p1);
    let mut i: usize = 0;
    while i < 11
        invariant
            i <= 11,
            r@ == decimal(p1 as nat) + score_separator().take(i as int),
        decreases 11 - i,
    {
        let b: u8 = if i == 5 { 45u8 } else { 32u8 };
        r.push(b);
        i = i + 1;
        proof {
            assert(r@ =~= decimal(p1 as nat) + score_separator().take(i as int));
        }
    }
    push_decimal(&mut r, p2);
    proof {
        assert(score_separator().take(11) =~= score_separator());
    }
    r
}

/// Where the rendered score line is drawn, given its natural size: scaled
/// to two fifths, near the top, centered horizontally.
pub fn score_rect(text_width: u32, text_height: u32) -> (r: ScreenRect)
    ensures
        r.x == WINDOW_WIDTH / 2 - text_width / 5,
        r.y == WINDOW_HEIGHT / 20,
        r.width == 2 * text_width / 5,
        r.height == 2 * text_height / 5,
{
    let half_shift: i32 = (text_width / 5) as i32;
    let width: u64 = 2 * (text_width as u64) / 5;
    let height: u64 = 2 * (text_height as u64) / 5;
    ScreenRect {
        x: WINDOW_WIDTH / 2 - half_shift,
        y: WINDOW_HEIGHT / 20,
        width: width as u32,
        height: height as u32,
    }
}

} // verus!
