use vectorcade::draw::{decimal, DrawCmd, Rgba};
use vectorcade::geom::V2;
use vectorcade::input::{Button, Keys};
use vectorcade::pong::Pong;

fn playing() -> Pong {
    let mut g = Pong::new();
    g.showing_instructions = false;
    g
}

#[test]
fn pong_advances() {
    let mut g = Pong::new();
    g.showing_instructions = false; // Skip instructions for test
    let x0 = g.ball.x;
    g.update(&Keys::none(), 960);
    assert!(g.ball.x != x0);
}

#[test]
fn pong_serve_moves_ball_one_second() {
    let mut g = playing();
    assert_eq!(g.ball, V2::new(0, 0));
    assert_eq!(g.vel, V2::new(6_000, 2_500));
    g.update(&Keys::none(), 60_000);
    assert_eq!(g.ball, V2::new(6_000, 2_500));
    assert_eq!(g.vel, V2::new(6_000, 2_500));
}

#[test]
fn pong_ball_past_right_edge_scores_left() {
    let mut g = playing();
    g.ball = V2::new(10_400, 0);
    g.vel = V2::new(6_000, 2_500);
    g.update(&Keys::none(), 60_000);
    assert_eq!(g.score_l, 1);
    assert_eq!(g.score_r, 0);
    assert_eq!(g.ball, V2::new(0, 0));
    assert_eq!(g.vel, V2::new(-6_000, 2_500));
}

#[test]
fn pong_ball_past_left_edge_scores_right() {
    let mut g = playing();
    g.ball = V2::new(-10_400, 0);
    g.vel = V2::new(-6_000, 0);
    g.update(&Keys::none(), 60_000);
    assert_eq!(g.score_r, 1);
    assert_eq!(g.score_l, 0);
    assert_eq!(g.ball, V2::new(0, 0));
    assert_eq!(g.vel, V2::new(6_000, 2_500));
}

#[test]
fn pong_full_traversal_scores_and_serves_back() {
    let mut g = playing();
    // with the paddles out of the way the ball crosses the right goal line
    g.paddle_r = 8_000;
    for _ in 0..120 {
        g.update(&Keys::none(), 1_000);
        if g.score_l == 1 {
            break;
        }
    }
    assert_eq!(g.score_l, 1);
    assert_eq!(g.ball, V2::new(0, 0));
    assert_eq!(g.vel, V2::new(-6_000, 2_500));
}

#[test]
fn pong_bounces_off_top_wall() {
    let mut g = playing();
    g.ball = V2::new(0, 9_400);
    g.vel = V2::new(6_000, 2_500);
    g.update(&Keys::none(), 60_000);
    assert_eq!(g.ball, V2::new(6_000, 9_500));
    assert_eq!(g.vel, V2::new(6_000, -2_500));
}

#[test]
fn pong_bounces_off_bottom_wall() {
    let mut g = playing();
    g.ball = V2::new(0, -9_400);
    g.vel = V2::new(6_000, -2_500);
    g.update(&Keys::none(), 60_000);
    assert_eq!(g.ball, V2::new(6_000, -9_500));
    assert_eq!(g.vel, V2::new(6_000, 2_500));
}

#[test]
fn pong_left_paddle_returns_ball() {
    let mut g = playing();
    g.ball = V2::new(-8_800, 0);
    g.vel = V2::new(-6_000, 0);
    g.update(&Keys::none(), 960);
    assert_eq!(g.ball, V2::new(-8_896, 0));
    assert_eq!(g.vel, V2::new(6_000, 0));
}

#[test]
fn pong_right_paddle_returns_ball() {
    let mut g = playing();
    g.ball = V2::new(8_800, 0);
    g.vel = V2::new(6_000, 0);
    g.update(&Keys::none(), 960);
    assert_eq!(g.vel, V2::new(-6_000, 0));
}

#[test]
fn pong_paddles_follow_keys_and_stop_at_travel_limit() {
    let mut g = playing();
    let mut keys = Keys::none();
    keys.w = Button::held();
    keys.down = Button::held();
    g.update(&keys, 960);
    assert_eq!(g.paddle_l, 192);
    assert_eq!(g.paddle_r, -192);
    g.paddle_l = 7_900;
    g.update(&keys, 60_000);
    assert_eq!(g.paddle_l, 8_000);
}

#[test]
fn pong_waits_on_instructions_until_space() {
    let mut g = Pong::new();
    g.update(&Keys::none(), 960);
    assert!(g.showing_instructions);
    assert_eq!(g.ball, V2::new(0, 0));
    let mut keys = Keys::none();
    keys.space = Button::pressed();
    g.update(&keys, 960);
    assert!(!g.showing_instructions);
    assert_eq!(g.ball, V2::new(0, 0));
}

#[test]
fn pong_reset_restores_start() {
    let mut g = playing();
    g.score_l = 3;
    g.ball = V2::new(100, 100);
    g.reset();
    assert_eq!(g.score_l, 0);
    assert_eq!(g.ball, V2::new(0, 0));
    assert_eq!(g.vel, V2::new(6_000, 2_500));
}

fn same(a: &[DrawCmd], b: &[DrawCmd]) -> bool {
    format!("{:?}", a) == format!("{:?}", b)
}

#[test]
fn pong_render_twice_is_identical() {
    let mut g = playing();
    g.update(&Keys::none(), 960);
    let first = g.render();
    let second = g.render();
    assert!(same(&first, &second));
    assert_eq!(first.len(), 7);
}

#[test]
fn pong_render_shows_court_and_scores() {
    let mut g = playing();
    g.score_l = 12;
    g.score_r = 0;
    g.ball = V2::new(1_000, -500);
    let cmds = g.render();
    assert!(matches!(cmds[0], DrawCmd::Clear { color } if color == Rgba::black()));
    match &cmds[4] {
        DrawCmd::Polyline { pts, closed, .. } => {
            assert!(*closed);
            assert_eq!(pts, &vec![
                V2::new(800, -700),
                V2::new(1_200, -700),
                V2::new(1_200, -300),
                V2::new(800, -300),
            ]);
        }
        _ => panic!("ball outline expected"),
    }
    match &cmds[5] {
        DrawCmd::Text { text, .. } => assert_eq!(text.iter().collect::<String>(), "12"),
        _ => panic!("left score expected"),
    }
    match &cmds[6] {
        DrawCmd::Text { text, .. } => assert_eq!(text.iter().collect::<String>(), "0"),
        _ => panic!("right score expected"),
    }
}

#[test]
fn decimal_digits() {
    assert_eq!(decimal(0), vec!['0']);
    assert_eq!(decimal(907), vec!['9', '0', '7']);
    assert_eq!(decimal(u32::MAX).iter().collect::<String>(), "4294967295");
}

#[test]
fn pong_render_instructions() {
    let g = Pong::new();
    let cmds = g.render();
    assert_eq!(cmds.len(), 6);
    match &cmds[1] {
        DrawCmd::Text { text, .. } => assert_eq!(text.iter().collect::<String>(), "PONG"),
        _ => panic!("title expected"),
    }
}
