//! Two-player Pong: paddles on the left and right edges, a ball that bounces
//! off the top and bottom walls and off the paddles, and a point for a player
//! each time the ball leaves the court on the other side.

use vstd::prelude::*;
use crate::geom::{advance, clamp, clamp_spec, dt_ok, in_limit, lemma_over_dt_bound, over_dt, V2};
use crate::input::Keys;
use crate::draw::{decimal, decimal_spec, lemma_views_push, rect_pts, rect_wire, views, DrawCmd, DrawView, Rgba, Stroke};

verus! {

/// Paddle travel speed, distance units per second.
pub const PADDLE_SPEED: i64 = 12_000;
/// Half the height of a paddle.
pub const PADDLE_HALF: i64 = 1_800;
/// Furthest a paddle centre travels from the middle.
pub const PADDLE_TRAVEL: i64 = 8_000;
/// Horizontal position of the left paddle.
pub const PADDLE_X_L: i64 = -9_000;
/// Horizontal position of the right paddle.
pub const PADDLE_X_R: i64 = 9_000;
/// How close to a paddle's line the ball must be to hit it.
pub const HIT_BAND: i64 = 300;
/// Bound on positions during one step.
const LIMIT_I: i64 = crate::geom::LIMIT;
/// Top and bottom walls.
pub const WALL_Y: i64 = 9_500;
/// Past this horizontal distance from the middle the ball is out.
pub const GOAL_X: i64 = 10_500;
/// Horizontal serve speed.
pub const SERVE_VX: i64 = 6_000;
/// Vertical serve speed.
pub const SERVE_VY: i64 = 2_500;

/// The Pong court.
#[derive(Clone, Copy, Debug, PartialEq, Eq, Structural)]
pub struct Pong {
    pub ball: V2,
    pub vel: V2,
    pub paddle_l: i64,
    pub paddle_r: i64,
    pub score_l: u32,
    pub score_r: u32,
    pub showing_instructions: bool,
}

/// A paddle moved by its two keys for `dt` ticks and kept on the court.
pub open spec fn paddle_next(p: int, up: bool, dn: bool, dt: int) -> int {
    let a = if up { p + over_dt(PADDLE_SPEED as int, dt) } else { p };
    let b = if dn { a - over_dt(PADDLE_SPEED as int, dt) } else { a };
    clamp_spec(b, -PADDLE_TRAVEL as int, PADDLE_TRAVEL as int)
}

/// Reflection off the top and bottom walls: the ball is put back on the wall
/// and its vertical velocity reversed.
pub open spec fn walls_spec(ball: V2, vel: V2) -> (V2, V2) {
    if ball.y > WALL_Y {
        (V2 { x: ball.x, y: WALL_Y }, V2 { x: vel.x, y: (-vel.y) as i64 })
    } else if ball.y < -WALL_Y {
        (V2 { x: ball.x, y: (-WALL_Y) as i64 }, V2 { x: vel.x, y: (-vel.y) as i64 })
    } else {
        (ball, vel)
    }
}

pub open spec fn abs_spec(a: int) -> int {
    if a < 0 { -a } else { a }
}

/// Whether the ball touches a paddle at `px` whose centre is at height `py`.
pub open spec fn touches_paddle(ball: V2, px: int, py: int) -> bool {
    abs_spec(ball.x - px) < HIT_BAND && abs_spec(ball.y - py) < PADDLE_HALF
}

/// A ball moving towards a paddle that it touches is sent back.
pub open spec fn paddles_spec(ball: V2, vel: V2, pl: int, pr: int) -> V2 {
    let vx1 = if touches_paddle(ball, PADDLE_X_L as int, pl) && vel.x < 0 { (-vel.x) as int } else { vel.x as int };
    let vx2 = if touches_paddle(ball, PADDLE_X_R as int, pr) && vx1 > 0 { -vx1 } else { vx1 };
    V2 { x: vx2 as i64, y: vel.y }
}

impl Pong {
    /// Magnitudes small enough for the arithmetic of one update.
    pub open spec fn wf(self) -> bool {
        &&& self.ball.in_limit()
        &&& self.vel.in_limit()
        &&& in_limit(self.paddle_l as int)
        &&& in_limit(self.paddle_r as int)
    }

    /// The court after one update of `dt` ticks while playing.
    pub open spec fn play_spec(self, keys: Keys, dt: int) -> Pong {
        let pl = paddle_next(self.paddle_l as int, keys.w.is_down, keys.s.is_down, dt);
        let pr = paddle_next(self.paddle_r as int, keys.up.is_down, keys.down.is_down, dt);
        let moved = V2 {
            x: (self.ball.x + over_dt(self.vel.x as int, dt)) as i64,
            y: (self.ball.y + over_dt(self.vel.y as int, dt)) as i64,
        };
        let (b, v) = walls_spec(moved, self.vel);
        let v2 = paddles_spec(b, v, pl, pr);
        let base = Pong { paddle_l: pl as i64, paddle_r: pr as i64, ..self };
        if b.x < -GOAL_X {
            Pong {
                ball: V2 { x: 0, y: 0 },
                vel: V2 { x: SERVE_VX, y: SERVE_VY },
                score_r: sat_inc(self.score_r),
                ..base
            }
        } else if b.x > GOAL_X {
            Pong {
                ball: V2 { x: 0, y: 0 },
                vel: V2 { x: (-SERVE_VX) as i64, y: SERVE_VY },
                score_l: sat_inc(self.score_l),
                ..base
            }
        } else {
            Pong { ball: b, vel: v2, ..base }
        }
    }

    /// The court after one update: the instruction screen waits for a press of
    /// space; otherwise play advances.
    pub open spec fn update_spec(self, keys: Keys, dt: int) -> Pong {
        if self.showing_instructions {
            if keys.space.went_down {
                Pong { showing_instructions: false, ..self }
            } else {
                self
            }
        } else {
            self.play_spec(keys, dt)
        }
    }

    /// A court with the ball served from the middle towards the right, both
    /// paddles centred, no points, and the instruction screen showing.
    pub fn new() -> (r: Pong)
        ensures
            r.ball == (V2 { x: 0, y: 0 }),
            r.vel == (V2 { x: SERVE_VX, y: SERVE_VY }),
            r.paddle_l == 0 && r.paddle_r == 0,
            r.score_l == 0 && r.score_r == 0,
            r.showing_instructions,
            r.wf(),
    {
        Pong {
            ball: V2::zero(),
            vel: V2::new(SERVE_VX, SERVE_VY),
            paddle_l: 0,
            paddle_r: 0,
            score_l: 0,
            score_r: 0,
            showing_instructions: true,
        }
    }

    /// Puts ball, paddles and scores back to their starting values; the
    /// instruction screen is left as it is.
    pub fn reset(&mut self)
        ensures
            final(self).ball == (V2 { x: 0, y: 0 }),
            final(self).vel == (V2 { x: SERVE_VX, y: SERVE_VY }),
            final(self).paddle_l == 0 && final(self).paddle_r == 0,
            final(self).score_l == 0 && final(self).score_r == 0,
            final(self).showing_instructions == old(self).showing_instructions,
            final(self).wf(),
    {
        self.ball = V2::zero();
        self.vel = V2::new(SERVE_VX, SERVE_VY);
        self.paddle_l = 0;
        self.paddle_r = 0;
        self.score_l = 0;
        self.score_r = 0;
    }

    /// Advances the game by `dt` ticks.
    pub fn update(&mut self, keys: &Keys, dt: i64)
        requires
            old(self).wf(),
            dt_ok(dt as int),
        ensures
            *final(self) == old(self).update_spec(*keys, dt as int),
            final(self).wf(),
    {
        if self.showing_instructions {
            if keys.space.went_down {
                self.showing_instructions = false;
            }
            return;
        }
        update_paddles(self, keys, dt);
        update_ball(self, dt);
    }
}

/// Horizontal extent of each paddle's outline, from its line outwards.
pub const PADDLE_WIDTH_HALF: i64 = 200;
/// Half the side of the ball's square.
pub const BALL_HALF: i64 = 200;
/// Height of the score line.
pub const SCORE_Y: i64 = 8_500;
/// Left end of the left score.
pub const SCORE_L_X: i64 = -2_000;
/// Left end of the right score.
pub const SCORE_R_X: i64 = 1_500;
/// Size of the score digits, in pixels.
pub const SCORE_SIZE: u32 = 18;

pub open spec fn line_stroke() -> Stroke {
    Stroke { color: Rgba::white_spec(), width_tenths: 20 }
}

pub open spec fn dim_white() -> Rgba {
    Rgba { r: 255, g: 255, b: 255, a: 153 }
}

/// The court: a dimmed centre line, and the two paddles and the ball as
/// outlines.
pub open spec fn court_scene(paddle_l: int, paddle_r: int, ball: V2) -> Seq<DrawView> {
    let s = line_stroke();
    seq![
        DrawView::Polyline {
            pts: seq![V2 { x: 0, y: -10_000i64 }, V2 { x: 0, y: 10_000 }],
            closed: false,
            stroke: Stroke { color: dim_white(), width_tenths: 20 },
        },
        DrawView::Polyline {
            pts: rect_pts(
                V2 { x: (PADDLE_X_L - PADDLE_WIDTH_HALF) as i64, y: (paddle_l - PADDLE_HALF) as i64 },
                V2 { x: (PADDLE_X_L + PADDLE_WIDTH_HALF) as i64, y: (paddle_l + PADDLE_HALF) as i64 },
            ),
            closed: true,
            stroke: s,
        },
        DrawView::Polyline {
            pts: rect_pts(
                V2 { x: (PADDLE_X_R - PADDLE_WIDTH_HALF) as i64, y: (paddle_r - PADDLE_HALF) as i64 },
                V2 { x: (PADDLE_X_R + PADDLE_WIDTH_HALF) as i64, y: (paddle_r + PADDLE_HALF) as i64 },
            ),
            closed: true,
            stroke: s,
        },
        DrawView::Polyline {
            pts: rect_pts(
                V2 { x: (ball.x - BALL_HALF) as i64, y: (ball.y - BALL_HALF) as i64 },
                V2 { x: (ball.x + BALL_HALF) as i64, y: (ball.y + BALL_HALF) as i64 },
            ),
            closed: true,
            stroke: s,
        },
    ]
}

/// The two scores in decimal, left and right of the centre line.
pub open spec fn scores_scene(score_l: u32, score_r: u32) -> Seq<DrawView> {
    seq![
        DrawView::Text {
            pos: V2 { x: SCORE_L_X, y: SCORE_Y },
            text: decimal_spec(score_l as nat),
            size_px: SCORE_SIZE,
            color: Rgba::white_spec(),
        },
        DrawView::Text {
            pos: V2 { x: SCORE_R_X, y: SCORE_Y },
            text: decimal_spec(score_r as nat),
            size_px: SCORE_SIZE,
            color: Rgba::white_spec(),
        },
    ]
}

pub open spec fn text_at(x: int, y: int, text: Seq<char>, size_px: u32) -> DrawView {
    DrawView::Text { pos: V2 { x: x as i64, y: y as i64 }, text, size_px, color: Rgba::white_spec() }
}

/// The instruction screen's lines.
pub open spec fn instructions_scene() -> Seq<DrawView> {
    seq![
        text_at(-1_200, 6_000, "PONG"@, 96),
        text_at(-5_000, 3_500, "2 PLAYER GAME"@, 56),
        text_at(-5_000, 1_000, "LEFT PADDLE: W/S"@, 48),
        text_at(-6_500, -1_500, "RIGHT PADDLE: UP/DOWN"@, 48),
        text_at(-7_000, -6_000, "PRESS SPACE TO START"@, 56),
    ]
}

fn say(out: &mut Vec<DrawCmd>, x: i64, y: i64, s: &str, size_px: u32)
    ensures
        views(final(out)@) == views(old(out)@).push(text_at(x as int, y as int, s@, size_px)),
{
    crate::draw::emit(out, DrawCmd::Text { pos: V2::new(x, y), text: crate::draw::text_of(s), size_px, color: Rgba::white() });
}

/// What the game looks like: the screen cleared, then the instructions
/// only, or the court and the scores.
pub open spec fn scene(g: Pong) -> Seq<DrawView> {
    seq![DrawView::Clear { color: Rgba::black_spec() }] + if g.showing_instructions {
        instructions_scene()
    } else {
        court_scene(g.paddle_l as int, g.paddle_r as int, g.ball) + scores_scene(g.score_l, g.score_r)
    }
}

/// Adds the court's commands.
pub fn render_court(out: &mut Vec<DrawCmd>, paddle_l: i64, paddle_r: i64, ball: V2)
    requires
        in_limit(paddle_l as int),
        in_limit(paddle_r as int),
        ball.in_limit(),
    ensures
        views(final(out)@) == views(old(out)@) + court_scene(paddle_l as int, paddle_r as int, ball),
{
    let s = Stroke { color: Rgba::white(), width_tenths: 20 };
    let center = vec![V2::new(0, -10_000), V2::new(0, 10_000)];
    assert(center@ =~= seq![V2 { x: 0, y: -10_000i64 }, V2 { x: 0, y: 10_000 }]);
    let c0 = DrawCmd::Polyline {
        pts: center,
        closed: false,
        stroke: Stroke { color: Rgba { r: 255, g: 255, b: 255, a: 153 }, width_tenths: 20 },
    };
    let c1 = rect_wire(
        V2::new(PADDLE_X_L - PADDLE_WIDTH_HALF, paddle_l - PADDLE_HALF),
        V2::new(PADDLE_X_L + PADDLE_WIDTH_HALF, paddle_l + PADDLE_HALF),
        s,
    );
    let c2 = rect_wire(
        V2::new(PADDLE_X_R - PADDLE_WIDTH_HALF, paddle_r - PADDLE_HALF),
        V2::new(PADDLE_X_R + PADDLE_WIDTH_HALF, paddle_r + PADDLE_HALF),
        s,
    );
    let c3 = rect_wire(
        V2::new(ball.x - BALL_HALF, ball.y - BALL_HALF),
        V2::new(ball.x + BALL_HALF, ball.y + BALL_HALF),
        s,
    );
    let ghost want = court_scene(paddle_l as int, paddle_r as int, ball);
    let ghost start = out@;
    proof { lemma_views_push(out@, c0); }
    out.push(c0);
    proof { lemma_views_push(out@, c1); }
    out.push(c1);
    proof { lemma_views_push(out@, c2); }
    out.push(c2);
    proof { lemma_views_push(out@, c3); }
    out.push(c3);
    assert(views(out@) =~= views(start) + want);
}

/// Adds the two scores.
pub fn render_scores(out: &mut Vec<DrawCmd>, score_l: u32, score_r: u32)
    ensures
        views(final(out)@) == views(old(out)@) + scores_scene(score_l, score_r),
{
    let white = Rgba::white();
    let l = DrawCmd::Text { pos: V2::new(SCORE_L_X, SCORE_Y), text: decimal(score_l), size_px: SCORE_SIZE, color: white };
    let r = DrawCmd::Text { pos: V2::new(SCORE_R_X, SCORE_Y), text: decimal(score_r), size_px: SCORE_SIZE, color: white };
    let ghost start = out@;
    proof { lemma_views_push(out@, l); }
    out.push(l);
    proof { lemma_views_push(out@, r); }
    out.push(r);
    assert(views(out@) =~= views(start) + scores_scene(score_l, score_r));
}

impl Pong {
    /// The draw commands of the game, a function of the state alone: two
    /// renders with no update between them give the same commands.
    pub fn render(&self) -> (out: Vec<DrawCmd>)
        requires
            self.wf(),
        ensures
            views(out@) == scene(*self),
    {
        let mut out: Vec<DrawCmd> = Vec::new();
        let c = DrawCmd::Clear { color: Rgba::black() };
        proof { lemma_views_push(out@, c); }
        out.push(c);
        if self.showing_instructions {
            say(&mut out, -1_200, 6_000, "PONG", 96);
            say(&mut out, -5_000, 3_500, "2 PLAYER GAME", 56);
            say(&mut out, -5_000, 1_000, "LEFT PADDLE: W/S", 48);
            say(&mut out, -6_500, -1_500, "RIGHT PADDLE: UP/DOWN", 48);
            say(&mut out, -7_000, -6_000, "PRESS SPACE TO START", 56);
            assert(views(out@) =~= scene(*self));
            return out;
        }
        render_court(&mut out, self.paddle_l, self.paddle_r, self.ball);
        render_scores(&mut out, self.score_l, self.score_r);
        assert(views(out@) =~= scene(*self));
        out
    }
}

pub open spec fn sat_inc(a: u32) -> u32 {
    if a < u32::MAX { (a + 1) as u32 } else { a }
}

/// Moves both paddles: W and S drive the left one, Up and Down the right one.
pub fn update_paddles(pong: &mut Pong, keys: &Keys, dt: i64)
    requires
        old(pong).wf(),
        dt_ok(dt as int),
    ensures
        final(pong).paddle_l == paddle_next(old(pong).paddle_l as int, keys.w.is_down, keys.s.is_down, dt as int),
        final(pong).paddle_r == paddle_next(old(pong).paddle_r as int, keys.up.is_down, keys.down.is_down, dt as int),
        final(pong).ball == old(pong).ball,
        final(pong).vel == old(pong).vel,
        final(pong).score_l == old(pong).score_l,
        final(pong).score_r == old(pong).score_r,
        final(pong).showing_instructions == old(pong).showing_instructions,
        final(pong).wf(),
{
    pong.paddle_l = move_paddle(pong.paddle_l, keys.w.is_down, keys.s.is_down, dt);
    pong.paddle_r = move_paddle(pong.paddle_r, keys.up.is_down, keys.down.is_down, dt);
}

fn move_paddle(p: i64, up: bool, dn: bool, dt: i64) -> (r: i64)
    requires
        in_limit(p as int),
        dt_ok(dt as int),
    ensures
        r == paddle_next(p as int, up, dn, dt as int),
{
    let a = if up { advance(p, PADDLE_SPEED, dt) } else { p };
    let b = if dn { advance(a, -PADDLE_SPEED, dt) } else { a };
    proof {
        lemma_over_dt_bound(PADDLE_SPEED as int, dt as int);
    }
    clamp(b, -PADDLE_TRAVEL, PADDLE_TRAVEL)
}

/// Moves the ball, bounces it off walls and paddles, and scores a point when
/// it leaves the court.
pub fn update_ball(pong: &mut Pong, dt: i64)
    requires
        old(pong).wf(),
        dt_ok(dt as int),
        -PADDLE_TRAVEL <= old(pong).paddle_l <= PADDLE_TRAVEL,
        -PADDLE_TRAVEL <= old(pong).paddle_r <= PADDLE_TRAVEL,
    ensures
        ({
            let moved = V2 {
                x: (old(pong).ball.x + over_dt(old(pong).vel.x as int, dt as int)) as i64,
                y: (old(pong).ball.y + over_dt(old(pong).vel.y as int, dt as int)) as i64,
            };
            let (b, v) = walls_spec(moved, old(pong).vel);
            let v2 = paddles_spec(b, v, old(pong).paddle_l as int, old(pong).paddle_r as int);
            if b.x < -GOAL_X {
                final(pong).ball == V2 { x: 0, y: 0 } && final(pong).vel == V2 { x: SERVE_VX, y: SERVE_VY }
                    && final(pong).score_r == sat_inc(old(pong).score_r) && final(pong).score_l == old(pong).score_l
            } else if b.x > GOAL_X {
                final(pong).ball == V2 { x: 0, y: 0 } && final(pong).vel == V2 { x: (-SERVE_VX) as i64, y: SERVE_VY }
                    && final(pong).score_l == sat_inc(old(pong).score_l) && final(pong).score_r == old(pong).score_r
            } else {
                final(pong).ball == b && final(pong).vel == v2
                    && final(pong).score_l == old(pong).score_l && final(pong).score_r == old(pong).score_r
            }
        }),
        final(pong).paddle_l == old(pong).paddle_l,
        final(pong).paddle_r == old(pong).paddle_r,
        final(pong).showing_instructions == old(pong).showing_instructions,
        final(pong).wf(),
{
    proof {
        lemma_over_dt_bound(pong.vel.x as int, dt as int);
        lemma_over_dt_bound(pong.vel.y as int, dt as int);
    }
    let bx = advance(pong.ball.x, pong.vel.x, dt);
    let by = advance(pong.ball.y, pong.vel.y, dt);
    let (b, v) = bounce_walls(V2::new(bx, by), pong.vel);
    let v2 = bounce_paddles(b, v, pong.paddle_l, pong.paddle_r);
    check_scoring(pong, b, v2);
}

/// Reflects the ball off the top and bottom walls.
fn bounce_walls(ball: V2, vel: V2) -> (r: (V2, V2))
    requires
        -2 * LIMIT_I <= ball.y <= 2 * LIMIT_I,
        vel.in_limit(),
    ensures
        r == walls_spec(ball, vel),
{
    if ball.y > WALL_Y {
        (V2::new(ball.x, WALL_Y), V2::new(vel.x, -vel.y))
    } else if ball.y < -WALL_Y {
        (V2::new(ball.x, -WALL_Y), V2::new(vel.x, -vel.y))
    } else {
        (ball, vel)
    }
}

/// Sends the ball back from a paddle that it touches while moving towards
/// it.
fn bounce_paddles(ball: V2, vel: V2, pl: i64, pr: i64) -> (r: V2)
    requires
        -2 * LIMIT_I <= ball.x <= 2 * LIMIT_I,
        -WALL_Y <= ball.y <= WALL_Y,
        -PADDLE_TRAVEL <= pl <= PADDLE_TRAVEL,
        -PADDLE_TRAVEL <= pr <= PADDLE_TRAVEL,
        vel.in_limit(),
    ensures
        r == paddles_spec(ball, vel, pl as int, pr as int),
{
    let hit_l = abs_i64(ball.x - PADDLE_X_L) < HIT_BAND && abs_i64(ball.y - pl) < PADDLE_HALF;
    let hit_r = abs_i64(ball.x - PADDLE_X_R) < HIT_BAND && abs_i64(ball.y - pr) < PADDLE_HALF;
    let mut vx = vel.x;
    if hit_l && vx < 0 {
        vx = -vx;
    }
    if hit_r && vx > 0 {
        vx = -vx;
    }
    V2::new(vx, vel.y)
}

/// A ball out past either goal line scores for the other side and is served
/// again from the middle, towards the side that conceded; otherwise the
/// ball takes its new position and velocity.
fn check_scoring(pong: &mut Pong, ball: V2, vel: V2)
    requires
        -2 * LIMIT_I <= ball.x <= 2 * LIMIT_I,
        -WALL_Y <= ball.y <= WALL_Y,
        vel.in_limit(),
    ensures
        ball.x < -GOAL_X ==> final(pong).ball == (V2 { x: 0, y: 0 }) && final(pong).vel == (V2 { x: SERVE_VX, y: SERVE_VY })
            && final(pong).score_r == sat_inc(old(pong).score_r) && final(pong).score_l == old(pong).score_l,
        ball.x > GOAL_X ==> final(pong).ball == (V2 { x: 0, y: 0 }) && final(pong).vel == (V2 { x: (-SERVE_VX) as i64, y: SERVE_VY })
            && final(pong).score_l == sat_inc(old(pong).score_l) && final(pong).score_r == old(pong).score_r,
        -GOAL_X <= ball.x <= GOAL_X ==> final(pong).ball == ball && final(pong).vel == vel
            && final(pong).score_l == old(pong).score_l && final(pong).score_r == old(pong).score_r,
        final(pong).paddle_l == old(pong).paddle_l,
        final(pong).paddle_r == old(pong).paddle_r,
        final(pong).showing_instructions == old(pong).showing_instructions,
{
    if ball.x < -GOAL_X {
        pong.score_r = pong.score_r.saturating_add(1);
        pong.ball = V2::zero();
        pong.vel = V2::new(SERVE_VX, SERVE_VY);
    } else if ball.x > GOAL_X {
        pong.score_l = pong.score_l.saturating_add(1);
        pong.ball = V2::zero();
        pong.vel = V2::new(-SERVE_VX, SERVE_VY);
    } else {
        pong.ball = ball;
        pong.vel = vel;
    }
}

fn abs_i64(a: i64) -> (r: i64)
    requires
        a > i64::MIN,
    ensures
        r == abs_spec(a as int),
{
    if a < 0 { -a } else { a }
}

} // verus!
