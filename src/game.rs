use vstd::prelude::*;
use crate::config::{
    BALL_SIZE, BALL_SPEED, MAX_SLOPE, PADDLE1_X, PADDLE2_X, PADDLE_HEIGHT, PADDLE_SPEED,
    PADDLE_WIDTH, PADDLE_Y_MAX, PADDLE_Y_MIN, SERVE_DELAY_FRAMES, TOLERANCE, WINDOW_HEIGHT, WINDOW_WIDTH,
};
use crate::heading::Heading;
use crate::input::{after_events, HeldKeys, InputEvent};

verus! {

pub open spec fn abs(a: int) -> int {
    if a < 0 {
        -a
    } else {
        a
    }
}

/// Division truncated toward zero, by a positive divisor.
pub open spec fn quot(a: int, d: int) -> int {
    if a >= 0 {
        a / d
    } else {
        -((-a) / d)
    }
}

/// A paddle's center after one frame: "up" wins over "down", neither moves
/// the paddle once its center has reached the bound on that side, and a step
/// stops at the bound.
pub open spec fn moved_paddle(y: int, up: bool, down: bool) -> int {
    if up && y > PADDLE_Y_MIN {
        if y - PADDLE_SPEED < PADDLE_Y_MIN {
            PADDLE_Y_MIN as int
        } else {
            y - PADDLE_SPEED
        }
    } else if down && y < PADDLE_Y_MAX {
        if y + PADDLE_SPEED > PADDLE_Y_MAX {
            PADDLE_Y_MAX as int
        } else {
            y + PADDLE_SPEED
        }
    } else {
        y
    }
}

/// The ball's vertical extent overlaps the paddle's.
pub open spec fn overlaps(by: int, py: int) -> bool {
    by + BALL_SIZE / 2 >= py - PADDLE_HEIGHT / 2 && by - BALL_SIZE / 2 <= py + PADDLE_HEIGHT / 2
}

/// The ball's left edge is within the tolerance band of the left paddle's
/// right edge, and their vertical extents overlap.
pub open spec fn hits_paddle1(bx: int, by: int, py: int) -> bool {
    abs(bx - BALL_SIZE / 2 - (PADDLE1_X + PADDLE_WIDTH / 2)) <= TOLERANCE && overlaps(by, py)
}

/// The ball's right edge is within the tolerance band of the right paddle's
/// left edge, and their vertical extents overlap.
pub open spec fn hits_paddle2(bx: int, by: int, py: int) -> bool {
    abs(bx + BALL_SIZE / 2 - (PADDLE2_X - PADDLE_WIDTH / 2)) <= TOLERANCE && overlaps(by, py)
}

/// The ball's top edge is within the tolerance band of the top of the window.
pub open spec fn touches_top(by: int) -> bool {
    abs(by - BALL_SIZE / 2) <= TOLERANCE
}

/// The ball's bottom edge is within the tolerance band of the bottom of the window.
pub open spec fn touches_bottom(by: int) -> bool {
    abs(by + BALL_SIZE / 2 - WINDOW_HEIGHT) <= TOLERANCE
}

/// The ball's left edge has reached the band at the left side: player 2 scores.
pub open spec fn lost_left(bx: int) -> bool {
    bx - BALL_SIZE / 2 <= TOLERANCE
}

/// The ball's right edge has reached the band at the right side: player 1 scores.
pub open spec fn lost_right(bx: int) -> bool {
    bx + BALL_SIZE / 2 >= WINDOW_WIDTH - TOLERANCE
}

/// The heading after a paddle hit. The slope is the vertical offset of the
/// ball from the paddle's center over their horizontal distance, so that the
/// ball leaves more steeply the farther from the center it struck.
pub open spec fn heading_after_paddles(bx: int, by: int, p1: int, p2: int, h: Heading) -> Heading {
    if hits_paddle1(bx, by, p1) {
        Heading { rightward: true, slope: quot(by - p1, bx - PADDLE1_X) as i32 }
    } else if hits_paddle2(bx, by, p2) {
        Heading { rightward: false, slope: quot(by - p2, PADDLE2_X - bx) as i32 }
    } else {
        h
    }
}

/// The heading after the wall test: mirrored when the ball touches the top or
/// the bottom of the window.
pub open spec fn heading_after_walls(by: int, h: Heading) -> Heading {
    if touches_top(by) || touches_bottom(by) {
        Heading { rightward: h.rightward, slope: (-h.slope) as i32 }
    } else {
        h
    }
}

/// The ball's vertical position stays away from the walls: it never goes
/// beyond the band at either wall, and when it sits in a band moving away from
/// that wall, the position it came from was not beyond the band either.
pub open spec fn ball_y_ok(by: int, dy: int) -> bool {
    let top = BALL_SIZE / 2 - TOLERANCE;
    let bottom = WINDOW_HEIGHT - BALL_SIZE / 2 + TOLERANCE;
    &&& top <= by <= bottom
    &&& (touches_top(by) && dy > 0 ==> by - dy >= top)
    &&& (touches_bottom(by) && dy < 0 ==> by - dy <= bottom)
}

/// The state of the game: held keys, positions, scores and round state.
#[derive(Clone, Copy, Debug, PartialEq, Eq, Structural)]
pub struct Game {
    pub keys: HeldKeys,
    /// Center of the ball.
    pub ball_x: i32,
    pub ball_y: i32,
    pub heading: Heading,
    /// Vertical centers of the left and right paddles.
    pub paddle1_y: i32,
    pub paddle2_y: i32,
    pub score_p1: u32,
    pub score_p2: u32,
    /// A round is being played.
    pub playing: bool,
    /// No frame has been shown yet.
    pub first_time: bool,
    /// Frames still to be drawn, outside a round, before the next one starts.
    pub serve_wait: u32,
}

/// What the caller does after the state of a frame has been updated.
#[derive(Clone, Copy, Debug, PartialEq, Eq, Structural)]
pub enum FrameAction {
    /// Stop the game, drawing nothing more.
    Quit,
    /// Draw the frame.
    Render,
}

/// A paddle's center after one frame.
pub fn move_paddle(y: i32, up: bool, down: bool) -> (r: i32)
    requires
        PADDLE_Y_MIN <= y <= PADDLE_Y_MAX,
    ensures
        r == moved_paddle(y as int, up, down),
        PADDLE_Y_MIN <= r <= PADDLE_Y_MAX,
{
    if up && y > PADDLE_Y_MIN {
        if y - PADDLE_SPEED < PADDLE_Y_MIN {
            PADDLE_Y_MIN
        } else {
            y - PADDLE_SPEED
        }
    } else if down && y < PADDLE_Y_MAX {
        if y + PADDLE_SPEED > PADDLE_Y_MAX {
            PADDLE_Y_MAX
        } else {
            y + PADDLE_SPEED
        }
    } else {
        y
    }
}

fn abs_i32(a: i32) -> (r: i32)
    requires
        a > i32::MIN,
    ensures
        r == abs(a as int),
{
    if a < 0 {
        -a
    } else {
        a
    }
}

/// `a / d` truncated toward zero.
fn truncated_div(a: i32, d: i32) -> (r: i32)
    requires
        d > 0,
        -MAX_SLOPE <= a <= MAX_SLOPE,
    ensures
        r == quot(a as int, d as int),
        -MAX_SLOPE <= r <= MAX_SLOPE,
{
    proof {
        let m = abs(a as int);
        assert(0 <= m / (d as int) <= m) by (nonlinear_arith)
            requires 0 <= m, d >= 1;
    }
    if a >= 0 {
        a / d
    } else {
        -((-a) / d)
    }
}

/// The heading with which the ball leaves its position this frame, after
/// the paddle and wall tests.
fn new_heading(bx: i32, by: i32, p1: i32, p2: i32, h: Heading) -> (r: Heading)
    requires
        h.wf(),
        !lost_left(bx as int) && !lost_right(bx as int),
        BALL_SIZE / 2 - TOLERANCE <= by <= WINDOW_HEIGHT - BALL_SIZE / 2 + TOLERANCE,
        PADDLE_Y_MIN <= p1 <= PADDLE_Y_MAX,
        PADDLE_Y_MIN <= p2 <= PADDLE_Y_MAX,
    ensures
        r == heading_after_walls(
            by as int,
            heading_after_paddles(bx as int, by as int, p1 as int, p2 as int, h),
        ),
        r.wf(),
{
    let overlap1 = by + BALL_SIZE / 2 >= p1 - PADDLE_HEIGHT / 2 && by - BALL_SIZE / 2 <= p1
        + PADDLE_HEIGHT / 2;
    let overlap2 = by + BALL_SIZE / 2 >= p2 - PADDLE_HEIGHT / 2 && by - BALL_SIZE / 2 <= p2
        + PADDLE_HEIGHT / 2;
    let mut r = h;
    if abs_i32(bx - BALL_SIZE / 2 - (PADDLE1_X + PADDLE_WIDTH / 2)) <= TOLERANCE && overlap1 {
        r = Heading { rightward: true, slope: truncated_div(by - p1, bx - PADDLE1_X) };
    } else if abs_i32(bx + BALL_SIZE / 2 - (PADDLE2_X - PADDLE_WIDTH / 2)) <= TOLERANCE
        && overlap2 {
        r = Heading { rightward: false, slope: truncated_div(by - p2, PADDLE2_X - bx) };
    }
    if abs_i32(by - BALL_SIZE / 2) <= TOLERANCE || abs_i32(by + BALL_SIZE / 2 - WINDOW_HEIGHT)
        <= TOLERANCE {
        r = r.bounced();
    }
    r
}

impl Game {
    pub open spec fn wf(self) -> bool {
        &&& self.heading.wf()
        &&& PADDLE_Y_MIN <= self.paddle1_y <= PADDLE_Y_MAX
        &&& PADDLE_Y_MIN <= self.paddle2_y <= PADDLE_Y_MAX
        &&& !lost_left(self.ball_x as int) && !lost_right(self.ball_x as int)
        &&& ball_y_ok(self.ball_y as int, self.heading.dy())
    }

    /// Both scores can still grow by one.
    pub open spec fn scores_below_max(self) -> bool {
        self.score_p1 < u32::MAX && self.score_p2 < u32::MAX
    }

    /// Ball and paddles at the window's center, as after a point.
    pub open spec fn at_rest(self) -> bool {
        &&& self.ball_x == WINDOW_WIDTH / 2
        &&& self.ball_y == WINDOW_HEIGHT / 2
        &&& self.paddle1_y == WINDOW_HEIGHT / 2
        &&& self.paddle2_y == WINDOW_HEIGHT / 2
    }

    /// The state after one frame of play: paddles move, then the ball's
    /// heading is set by the paddle and wall tests, the ball moves, and a
    /// ball that reached a side scores for the other player and restarts the
    /// round from the center, heading toward the player who lost the point,
    /// after the serve delay.
    pub open spec fn simulated(self) -> Game {
        let p1 = moved_paddle(self.paddle1_y as int, self.keys.up_p1, self.keys.down_p1);
        let p2 = moved_paddle(self.paddle2_y as int, self.keys.up_p2, self.keys.down_p2);
        let bx = self.ball_x as int;
        let by = self.ball_y as int;
        let h = heading_after_walls(by, heading_after_paddles(bx, by, p1, p2, self.heading));
        let nx = bx + h.dx();
        let ny = by + h.dy();
        let reset = Game {
            ball_x: (WINDOW_WIDTH / 2) as i32,
            ball_y: (WINDOW_HEIGHT / 2) as i32,
            paddle1_y: (WINDOW_HEIGHT / 2) as i32,
            paddle2_y: (WINDOW_HEIGHT / 2) as i32,
            playing: false,
            serve_wait: SERVE_DELAY_FRAMES,
            ..self
        };
        if lost_left(nx) {
            Game {
                score_p2: (self.score_p2 + 1) as u32,
                heading: Heading { rightward: false, slope: 0 },
                ..reset
            }
        } else if lost_right(nx) {
            Game {
                score_p1: (self.score_p1 + 1) as u32,
                heading: Heading { rightward: true, slope: 0 },
                ..reset
            }
        } else {
            Game {
                ball_x: nx as i32,
                ball_y: ny as i32,
                heading: h,
                paddle1_y: p1 as i32,
                paddle2_y: p2 as i32,
                ..self
            }
        }
    }

    /// The state after the round lifecycle's step for one frame, and what
    /// the caller then does. A round in play is simulated. The very first
    /// frame is only shown. Every later frame outside a round counts the
    /// serve delay down by one frame, and the one that finds a single frame
    /// (or none) left starts the round.
    pub open spec fn advanced(self) -> (Game, FrameAction) {
        if self.playing && !self.first_time {
            (self.simulated(), FrameAction::Render)
        } else if !self.playing && self.first_time {
            (Game { first_time: false, ..self }, FrameAction::Render)
        } else if !self.playing && self.serve_wait > 1 {
            (Game { serve_wait: (self.serve_wait - 1) as u32, ..self }, FrameAction::Render)
        } else if !self.playing {
            (Game { playing: true, serve_wait: 0, ..self }, FrameAction::Render)
        } else {
            (self, FrameAction::Render)
        }
    }

    /// A frame can be played without a score passing the largest `u32`.
    pub open spec fn score_room(self) -> bool {
        self.playing && !self.first_time ==> self.scores_below_max()
    }

    /// The state after a whole frame with the given events, and what the
    /// caller then does: an event that ends the game stops everything else.
    pub open spec fn framed(self, events: Seq<InputEvent>) -> (Game, FrameAction) {
        let (keys, quit) = after_events(self.keys, events);
        if quit {
            (Game { keys, ..self }, FrameAction::Quit)
        } else {
            Game { keys, ..self }.advanced()
        }
    }

    /// The state at startup: scores at zero, ball and paddles at rest at the
    /// center, the ball heading right, no key held, no frame shown yet, the
    /// whole serve delay ahead.
    pub fn new() -> (r: Game)
        ensures
            r.wf(),
            r.at_rest(),
            r.score_p1 == 0 && r.score_p2 == 0,
            !r.playing && r.first_time,
            r.heading == (Heading { rightward: true, slope: 0 }),
            r.serve_wait == SERVE_DELAY_FRAMES,
            !r.keys.up_p1 && !r.keys.down_p1 && !r.keys.up_p2 && !r.keys.down_p2,
    {
        let r = Game {
            keys: HeldKeys::new(),
            ball_x: WINDOW_WIDTH / 2,
            ball_y: WINDOW_HEIGHT / 2,
            heading: Heading::right(),
            paddle1_y: WINDOW_HEIGHT / 2,
            paddle2_y: WINDOW_HEIGHT / 2,
            score_p1: 0,
            score_p2: 0,
            playing: false,
            first_time: true,
            serve_wait: SERVE_DELAY_FRAMES,
        };
        proof {
            r.heading.lemma_velocity_bounds();
        }
        r
    }

    /// One frame of play (see `simulated`).
    pub fn simulate(&mut self)
        requires
            old(self).wf(),
            old(self).scores_below_max(),
        ensures
            *final(self) == old(self).simulated(),
            final(self).wf(),
    {
        proof {
            self.lemma_simulated_wf();
        }
        let p1 = move_paddle(self.paddle1_y, self.keys.up_p1, self.keys.down_p1);
        let p2 = move_paddle(self.paddle2_y, self.keys.up_p2, self.keys.down_p2);
        let bx = self.ball_x;
        let by = self.ball_y;
        let h = new_heading(bx, by, p1, p2, self.heading);
        let (dx, dy) = h.velocity();
        proof {
            h.lemma_velocity_bounds();
        }
        let nx = bx + dx;
        let ny = by + dy;
        if nx - BALL_SIZE / 2 <= TOLERANCE {
            self.score_p2 = self.score_p2 + 1;
            self.playing = false;
            self.serve_wait = SERVE_DELAY_FRAMES;
            self.ball_x = WINDOW_WIDTH / 2;
            self.ball_y = WINDOW_HEIGHT / 2;
            self.heading = Heading::left();
            self.paddle1_y = WINDOW_HEIGHT / 2;
            self.paddle2_y = WINDOW_HEIGHT / 2;
        } else if nx + BALL_SIZE / 2 >= WINDOW_WIDTH - TOLERANCE {
            self.score_p1 = self.score_p1 + 1;
            self.playing = false;
            self.serve_wait = SERVE_DELAY_FRAMES;
            self.ball_x = WINDOW_WIDTH / 2;
            self.ball_y = WINDOW_HEIGHT / 2;
            self.heading = Heading::right();
            self.paddle1_y = WINDOW_HEIGHT / 2;
            self.paddle2_y = WINDOW_HEIGHT / 2;
        } else {
            self.ball_x = nx;
            self.ball_y = ny;
            self.heading = h;
            self.paddle1_y = p1;
            self.paddle2_y = p2;
        }
    }

    /// A frame of play keeps the state well formed.
    pub proof fn lemma_simulated_wf(self)
        requires
            self.wf(),
        ensures
            self.simulated().wf(),
    {
        let p1 = moved_paddle(self.paddle1_y as int, self.keys.up_p1, self.keys.down_p1);
        let p2 = moved_paddle(self.paddle2_y as int, self.keys.up_p2, self.keys.down_p2);
        let bx = self.ball_x as int;
        let by = self.ball_y as int;
        let h0 = heading_after_paddles(bx, by, p1, p2, self.heading);
        if hits_paddle1(bx, by, p1) {
            let m = abs(by - p1);
            let d = bx - PADDLE1_X;
            assert(0 <= m / d <= m) by (nonlinear_arith)
                requires 0 <= m, d >= 1;
        } else if hits_paddle2(bx, by, p2) {
            let m = abs(by - p2);
            let d = PADDLE2_X - bx;
            assert(0 <= m / d <= m) by (nonlinear_arith)
                requires 0 <= m, d >= 1;
        }
        assert(h0.wf());
        let h = heading_after_walls(by, h0);
        self.heading.lemma_velocity_bounds();
        h0.lemma_velocity_bounds();
        h.lemma_velocity_bounds();
        Heading { rightward: false, slope: 0 }.lemma_velocity_bounds();
        Heading { rightward: true, slope: 0 }.lemma_velocity_bounds();
        h0.lemma_mirrored_velocity();
    }

    /// The round lifecycle's step for one frame (see `advanced`).
    pub fn advance(&mut self) -> (action: FrameAction)
        requires
            old(self).wf(),
            old(self).score_room(),
        ensures
            (*final(self), action) == old(self).advanced(),
            final(self).wf(),
    {
        if self.playing && !self.first_time {
            self.simulate();
            FrameAction::Render
        } else if !self.playing {
            if self.first_time {
                self.first_time = false;
                FrameAction::Render
            } else if self.serve_wait > 1 {
                self.serve_wait = self.serve_wait - 1;
                FrameAction::Render
            } else {
                self.playing = true;
                self.serve_wait = 0;
                FrameAction::Render
            }
        } else {
            FrameAction::Render
        }
    }

    /// One whole frame: the events in order, then, unless one of them ended
    /// the game, the lifecycle's step (see `framed`).
    pub fn frame(&mut self, events: &Vec<InputEvent>) -> (action: FrameAction)
        requires
            old(self).wf(),
            old(self).score_room(),
        ensures
            (*final(self), action) == old(self).framed(events@),
            final(self).wf(),
    {
        let quit = self.keys.apply_all(events);
        if quit {
            FrameAction::Quit
        } else {
            self.advance()
        }
    }
}

} // verus!
