use vstd::prelude::*;
use crate::config::{PADDLE_Y_MAX, PADDLE_Y_MIN};
use crate::game::{hits_paddle1, hits_paddle2, moved_paddle, Game};
use crate::heading::Heading;
use crate::input::InputEvent;

verus! {

/// Outside a round, a frame leaves the ball, its heading and both paddles
/// where they were.
pub proof fn lemma_frozen_while_waiting(s: Game, events: Seq<InputEvent>)
    requires
        s.wf(),
        !s.playing,
    ensures
        ({
            let t = s.framed(events).0;
            &&& t.ball_x == s.ball_x
            &&& t.ball_y == s.ball_y
            &&& t.heading == s.heading
            &&& t.paddle1_y == s.paddle1_y
            &&& t.paddle2_y == s.paddle2_y
        }),
{
}

/// A frame keeps both paddle centers within the clamp bounds.
pub proof fn lemma_paddles_clamped(s: Game, events: Seq<InputEvent>)
    requires
        s.wf(),
    ensures
        ({
            let t = s.framed(events).0;
            &&& PADDLE_Y_MIN <= t.paddle1_y <= PADDLE_Y_MAX
            &&& PADDLE_Y_MIN <= t.paddle2_y <= PADDLE_Y_MAX
        }),
{
}

/// Scores never decrease; a frame that ends a round raises exactly one of
/// them by one, and any other frame changes neither.
pub proof fn lemma_scores_monotonic(s: Game, events: Seq<InputEvent>)
    requires
        s.wf(),
        s.score_room(),
    ensures
        ({
            let t = s.framed(events).0;
            &&& t.score_p1 >= s.score_p1
            &&& t.score_p2 >= s.score_p2
            &&& s.playing && !t.playing ==> {
                ||| t.score_p1 == s.score_p1 + 1 && t.score_p2 == s.score_p2
                ||| t.score_p2 == s.score_p2 + 1 && t.score_p1 == s.score_p1
            }
            &&& !(s.playing && !t.playing) ==> t.score_p1 == s.score_p1 && t.score_p2
                == s.score_p2
        }),
{
}

/// After a frame that ends a round, the ball is at the window's center and
/// both paddles at its vertical center.
pub proof fn lemma_reset_after_point(s: Game, events: Seq<InputEvent>)
    requires
        s.wf(),
        s.playing,
        !s.framed(events).0.playing,
    ensures
        s.framed(events).0.at_rest(),
{
}

/// A ball that strikes a paddle level with its center leaves it straight,
/// with no vertical travel: rightward from the left paddle, leftward from the
/// right one.
pub proof fn lemma_straight_off_center(s: Game)
    requires
        s.wf(),
    ensures
        ({
            let p1 = moved_paddle(s.paddle1_y as int, s.keys.up_p1, s.keys.down_p1);
            let t = s.simulated();
            hits_paddle1(s.ball_x as int, s.ball_y as int, p1) && s.ball_y == p1 ==> {
                &&& t.heading == (Heading { rightward: true, slope: 0 })
                &&& t.ball_y == s.ball_y
            }
        }),
        ({
            let p1 = moved_paddle(s.paddle1_y as int, s.keys.up_p1, s.keys.down_p1);
            let p2 = moved_paddle(s.paddle2_y as int, s.keys.up_p2, s.keys.down_p2);
            let t = s.simulated();
            !hits_paddle1(s.ball_x as int, s.ball_y as int, p1) && hits_paddle2(
                s.ball_x as int,
                s.ball_y as int,
                p2,
            ) && s.ball_y == p2 ==> {
                &&& t.heading == (Heading { rightward: false, slope: 0 })
                &&& t.ball_y == s.ball_y
            }
        }),
{
    Heading { rightward: true, slope: 0 }.lemma_velocity_bounds();
    Heading { rightward: false, slope: 0 }.lemma_velocity_bounds();
}

} // verus!
