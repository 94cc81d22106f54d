use pong::{score_label, score_rect, FrameAction, Game, Heading, HeldKeys, InputEvent, Key, ScreenRect};
use pong::game::move_paddle;
use pong::config::{FRAMES_PER_SECOND, SERVE_DELAY_FRAMES, SERVE_DELAY_MS};

fn playing_game() -> Game {
    let mut g = Game::new();
    g.playing = true;
    g.first_time = false;
    g
}

#[test]
fn ball_moves_by_its_speed_straight_right() {
    let mut g = playing_game();
    g.heading = Heading::right();
    assert_eq!((g.ball_x, g.ball_y), (540, 360));
    g.simulate();
    assert_eq!((g.ball_x, g.ball_y), (552, 360));
    assert!(g.playing);
}

#[test]
fn ball_reaching_left_edge_scores_for_player_two() {
    let mut g = playing_game();
    g.ball_x = 20;
    g.ball_y = 200;
    g.paddle1_y = 400;
    g.paddle2_y = 300;
    g.heading = Heading::left();
    g.simulate();
    assert_eq!((g.score_p1, g.score_p2), (0, 1));
    assert!(!g.playing);
    assert_eq!((g.ball_x, g.ball_y), (540, 360));
    assert_eq!((g.paddle1_y, g.paddle2_y), (360, 360));
    assert_eq!(g.heading, Heading::left());
}

#[test]
fn ball_reaching_right_edge_scores_for_player_one() {
    let mut g = playing_game();
    g.score_p1 = 4;
    g.score_p2 = 2;
    g.ball_x = 1060;
    g.ball_y = 500;
    g.heading = Heading::right();
    g.simulate();
    assert_eq!((g.score_p1, g.score_p2), (5, 2));
    assert!(!g.playing);
    assert_eq!((g.ball_x, g.ball_y), (540, 360));
    assert_eq!((g.paddle1_y, g.paddle2_y), (360, 360));
    assert_eq!(g.heading, Heading::right());
}

#[test]
fn escape_ends_the_frame_before_anything_else() {
    let mut g = playing_game();
    g.heading = Heading::right();
    let before = g;
    let events = vec![
        InputEvent::KeyDown(Key::Z),
        InputEvent::KeyDown(Key::Escape),
        InputEvent::KeyDown(Key::S),
    ];
    assert_eq!(g.frame(&events), FrameAction::Quit);
    assert!(g.keys.up_p1);
    assert!(!g.keys.down_p1);
    assert_eq!((g.ball_x, g.ball_y), (before.ball_x, before.ball_y));
    assert_eq!((g.paddle1_y, g.paddle2_y), (before.paddle1_y, before.paddle2_y));
    assert_eq!(g.score_p1, before.score_p1);
}

#[test]
fn quit_event_ends_the_frame() {
    let mut g = Game::new();
    assert_eq!(g.frame(&vec![InputEvent::Quit]), FrameAction::Quit);
    assert!(g.first_time);
}

#[test]
fn paddle_at_minimum_does_not_move_up() {
    let mut g = playing_game();
    g.paddle1_y = 50;
    g.keys.up_p1 = true;
    g.simulate();
    assert_eq!(g.paddle1_y, 50);
    assert_eq!(move_paddle(50, true, false), 50);
}

#[test]
fn paddle_at_maximum_does_not_move_down() {
    assert_eq!(move_paddle(670, false, true), 670);
}

#[test]
fn paddle_moves_by_its_speed_and_up_wins() {
    assert_eq!(move_paddle(360, true, false), 352);
    assert_eq!(move_paddle(360, false, true), 368);
    assert_eq!(move_paddle(360, true, true), 352);
    assert_eq!(move_paddle(360, false, false), 360);
    assert_eq!(move_paddle(50, true, true), 58);
}

#[test]
fn paddle_step_stops_at_the_bound() {
    assert_eq!(move_paddle(56, true, false), 50);
    assert_eq!(move_paddle(664, false, true), 670);
    assert_eq!(move_paddle(58, true, false), 50);
    let mut g = playing_game();
    g.paddle1_y = 56;
    g.paddle2_y = 664;
    g.keys.up_p1 = true;
    g.keys.down_p2 = true;
    assert_eq!(g.frame(&vec![]), FrameAction::Render);
    assert_eq!((g.paddle1_y, g.paddle2_y), (50, 670));
    assert_eq!(g.paddle1_rect().y, 0);
    assert_eq!(g.paddle2_rect().y + 100, 720);
}

#[test]
fn positions_frozen_while_waiting_to_serve() {
    let mut g = Game::new();
    g.ball_x = 300;
    g.ball_y = 200;
    g.keys.down_p1 = true;
    let before = g;
    assert_eq!(g.frame(&vec![]), FrameAction::Render);
    assert!(!g.first_time && !g.playing);
    assert_eq!(g.serve_wait, SERVE_DELAY_FRAMES);
    assert_eq!(g.frame(&vec![InputEvent::KeyDown(Key::Up)]), FrameAction::Render);
    assert!(!g.playing);
    assert!(g.keys.up_p2);
    assert_eq!(g.serve_wait, SERVE_DELAY_FRAMES - 1);
    assert_eq!((g.ball_x, g.ball_y), (before.ball_x, before.ball_y));
    assert_eq!((g.paddle1_y, g.paddle2_y), (before.paddle1_y, before.paddle2_y));
    assert_eq!(g.heading, before.heading);
}

#[test]
fn round_lifecycle_from_startup() {
    let mut g = Game::new();
    assert!(g.first_time && !g.playing);
    assert_eq!(g.heading, Heading::right());
    assert_eq!(g.advance(), FrameAction::Render);
    assert!(!g.first_time && !g.playing);
    for left in (1..SERVE_DELAY_FRAMES).rev() {
        assert_eq!(g.advance(), FrameAction::Render);
        assert!(!g.playing);
        assert_eq!(g.serve_wait, left);
        assert_eq!((g.ball_x, g.ball_y), (540, 360));
    }
    assert_eq!(g.advance(), FrameAction::Render);
    assert!(g.playing);
    assert_eq!(g.serve_wait, 0);
    assert_eq!((g.ball_x, g.ball_y), (540, 360));
    assert_eq!(g.advance(), FrameAction::Render);
    assert_eq!((g.ball_x, g.ball_y), (552, 360));
}

#[test]
fn serve_delay_is_two_seconds_of_frames() {
    assert_eq!(SERVE_DELAY_FRAMES as u64, SERVE_DELAY_MS * FRAMES_PER_SECOND as u64 / 1000);
    assert_eq!(SERVE_DELAY_FRAMES, 120);
}

#[test]
fn point_restarts_the_serve_delay() {
    let mut g = playing_game();
    g.serve_wait = 0;
    g.ball_x = 1060;
    g.heading = Heading::right();
    assert_eq!(g.frame(&vec![]), FrameAction::Render);
    assert!(!g.playing);
    assert_eq!(g.serve_wait, SERVE_DELAY_FRAMES);
    assert_eq!(g.frame(&vec![]), FrameAction::Render);
    assert_eq!(g.serve_wait, SERVE_DELAY_FRAMES - 1);
    assert_eq!((g.ball_x, g.ball_y), (540, 360));
}

#[test]
fn score_at_limit_allowed_outside_play() {
    let mut g = Game::new();
    g.score_p1 = u32::MAX;
    assert_eq!(g.frame(&vec![]), FrameAction::Render);
    assert!(!g.first_time);
}

#[test]
fn ball_struck_at_paddle_one_center_leaves_straight() {
    let mut g = playing_game();
    g.ball_x = 125;
    g.ball_y = 360;
    g.heading = Heading::left();
    g.simulate();
    assert_eq!(g.heading, Heading::right());
    assert_eq!((g.ball_x, g.ball_y), (137, 360));
}

#[test]
fn ball_struck_at_paddle_two_center_leaves_straight() {
    let mut g = playing_game();
    g.ball_x = 955;
    g.ball_y = 360;
    g.heading = Heading::right();
    g.simulate();
    assert_eq!(g.heading, Heading::left());
    assert_eq!((g.ball_x, g.ball_y), (943, 360));
}

#[test]
fn ball_struck_below_center_leaves_downward() {
    let mut g = playing_game();
    g.ball_x = 125;
    g.ball_y = 390;
    g.heading = Heading::left();
    g.simulate();
    assert_eq!(g.heading, Heading { rightward: true, slope: 1 });
    assert_eq!((g.ball_x, g.ball_y), (133, 398));
}

#[test]
fn ball_struck_above_paddle_two_center_leaves_upward() {
    let mut g = playing_game();
    g.ball_x = 955;
    g.ball_y = 310;
    g.heading = Heading::right();
    g.simulate();
    assert_eq!(g.heading, Heading { rightward: false, slope: -2 });
    assert_eq!((g.ball_x, g.ball_y), (950, 300));
}

#[test]
fn paddle_moves_before_the_collision_test() {
    let mut g = playing_game();
    g.ball_x = 125;
    g.ball_y = 368;
    g.keys.down_p1 = true;
    g.heading = Heading::left();
    g.simulate();
    assert_eq!(g.paddle1_y, 368);
    assert_eq!(g.heading, Heading::right());
    assert_eq!((g.ball_x, g.ball_y), (137, 368));
}

#[test]
fn ball_bounces_off_the_top_wall() {
    let mut g = playing_game();
    g.ball_y = 10;
    g.heading = Heading { rightward: true, slope: -1 };
    g.simulate();
    assert_eq!(g.heading, Heading { rightward: true, slope: 1 });
    assert_eq!((g.ball_x, g.ball_y), (548, 18));
}

#[test]
fn ball_bounces_off_the_bottom_wall() {
    let mut g = playing_game();
    g.ball_y = 710;
    g.heading = Heading { rightward: false, slope: 3 };
    g.simulate();
    assert_eq!(g.heading, Heading { rightward: false, slope: -3 });
    assert_eq!((g.ball_x, g.ball_y), (537, 699));
}

#[test]
fn velocity_is_truncated_speed_along_heading() {
    assert_eq!(Heading::right().velocity(), (12, 0));
    assert_eq!(Heading::left().velocity(), (-12, 0));
    assert_eq!(Heading { rightward: true, slope: 1 }.velocity(), (8, 8));
    assert_eq!(Heading { rightward: true, slope: 2 }.velocity(), (5, 10));
    assert_eq!(Heading { rightward: true, slope: -3 }.velocity(), (3, -11));
    assert_eq!(Heading { rightward: false, slope: 4 }.velocity(), (-2, 11));
    assert_eq!(Heading { rightward: false, slope: -5 }.velocity(), (-2, -11));
    assert_eq!(Heading { rightward: true, slope: 60 }.velocity(), (0, 11));
}

#[test]
fn bounced_negates_the_slope() {
    let h = Heading { rightward: false, slope: 2 };
    assert_eq!(h.bounced(), Heading { rightward: false, slope: -2 });
}

#[test]
fn held_keys_follow_presses_and_releases() {
    let mut k = HeldKeys::new();
    let quit = k.apply_all(&vec![
        InputEvent::KeyDown(Key::Z),
        InputEvent::KeyDown(Key::Down),
        InputEvent::KeyDown(Key::S),
        InputEvent::KeyUp(Key::Z),
        InputEvent::KeyDown(Key::Other),
        InputEvent::Other,
        InputEvent::KeyUp(Key::Escape),
    ]);
    assert!(!quit);
    assert_eq!(k, HeldKeys { up_p1: false, down_p1: true, up_p2: false, down_p2: true });
    assert!(!k.apply(InputEvent::KeyDown(Key::Up)));
    assert!(k.up_p2);
    assert!(!k.apply(InputEvent::KeyUp(Key::Down)));
    assert!(!k.down_p2);
    assert!(k.apply(InputEvent::Quit));
}

#[test]
fn new_game_layout() {
    let g = Game::new();
    assert_eq!(g.ball_rect(), ScreenRect { x: 530, y: 350, width: 20, height: 20 });
    assert_eq!(g.paddle1_rect(), ScreenRect { x: 101, y: 310, width: 15, height: 100 });
    assert_eq!(g.paddle2_rect(), ScreenRect { x: 965, y: 310, width: 15, height: 100 });
    assert_eq!((g.score_p1, g.score_p2), (0, 0));
}

#[test]
fn score_line_text() {
    assert_eq!(score_label(0, 0), b"0     -     0".to_vec());
    assert_eq!(score_label(12, 3), b"12     -     3".to_vec());
    assert_eq!(score_label(4294967295, 100), b"4294967295     -     100".to_vec());
    let mut g = Game::new();
    g.score_p1 = 7;
    g.score_p2 = 10;
    assert_eq!(g.score_label(), b"7     -     10".to_vec());
}

#[test]
fn score_line_placement() {
    assert_eq!(score_rect(100, 50), ScreenRect { x: 520, y: 36, width: 40, height: 20 });
    assert_eq!(score_rect(0, 0), ScreenRect { x: 540, y: 36, width: 0, height: 0 });
    assert_eq!(
        score_rect(4294967295, 7),
        ScreenRect { x: 540 - 858993459, y: 36, width: 1717986918, height: 2 }
    );
}
