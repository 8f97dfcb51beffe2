//! What an Asteroids frame looks like, as draw commands.
//!
//! Rotations take unit vectors from the host: the ship's facing, and for
//! each asteroid the directions of its eight outline vertices (its spin
//! angle plus each eighth of a turn).

use vstd::prelude::*;
use crate::asteroids::entities::{Asteroid, Bullet, Particle, Ship, PARTICLE_LIFETIME};
use crate::asteroids::AsteroidsView;
use crate::draw::{
    decimal_spec, emit, padded_decimal, text_of, turned, turned_pt, views, zero_pad, DrawCmd,
    DrawView, Rgba, Stroke,
};
use crate::geom::{
    abs_int, clamp_spec, floor_sqrt, is_direction, isqrt, lemma_ratio_bound, mul_div,
    trunc_div, UNIT, V2,
};

verus! {

/// Vertices of an asteroid's outline.
pub const OUTLINE_VERTICES: usize = 8;

pub open spec fn white_stroke(width_tenths: u32) -> Stroke {
    Stroke { color: Rgba::white_spec(), width_tenths }
}

/// The ship: a triangle pointing along its facing, and a flame behind it
/// while thrusting.
pub open spec fn ship_scene(s: Ship, f: V2) -> Seq<DrawView> {
    let body = DrawView::Polyline {
        pts: seq![turned(s.pos, f, 400, 0), turned(s.pos, f, -250, 200), turned(s.pos, f, -250, -200)],
        closed: true,
        stroke: white_stroke(20),
    };
    if s.thrusting {
        seq![
            body,
            DrawView::Polyline {
                pts: seq![turned(s.pos, f, -250, 100), turned(s.pos, f, -450, 0), turned(s.pos, f, -250, -100)],
                closed: false,
                stroke: Stroke { color: Rgba { r: 255, g: 153, b: 51, a: 255 }, width_tenths: 20 },
            },
        ]
    } else {
        seq![body]
    }
}

/// Draws the ship facing `facing`.
pub fn render_ship(out: &mut Vec<DrawCmd>, ship: &Ship, facing: V2)
    requires
        ship.wf(),
        is_direction(facing),
    ensures
        views(final(out)@) == views(old(out)@) + ship_scene(*ship, facing),
{
    let ghost start = views(out@);
    let body = vec![
        turned_pt(ship.pos, facing, 400, 0),
        turned_pt(ship.pos, facing, -250, 200),
        turned_pt(ship.pos, facing, -250, -200),
    ];
    let ghost bp = body@;
    emit(out, DrawCmd::Polyline { pts: body, closed: true, stroke: Stroke { color: Rgba::white(), width_tenths: 20 } });
    if ship.thrusting {
        let flame = vec![
            turned_pt(ship.pos, facing, -250, 100),
            turned_pt(ship.pos, facing, -450, 0),
            turned_pt(ship.pos, facing, -250, -100),
        ];
        let ghost fp = flame@;
        emit(out, DrawCmd::Polyline {
            pts: flame,
            closed: false,
            stroke: Stroke { color: Rgba { r: 255, g: 153, b: 51, a: 255 }, width_tenths: 20 },
        });
        assert(fp =~= seq![turned(ship.pos, facing, -250, 100), turned(ship.pos, facing, -450, 0), turned(ship.pos, facing, -250, -100)]);
    }
    assert(bp =~= seq![turned(ship.pos, facing, 400, 0), turned(ship.pos, facing, -250, 200), turned(ship.pos, facing, -250, -200)]);
    assert(views(out@) =~= start + ship_scene(*ship, facing));
}

/// The LCG step that varies an asteroid's outline.
pub open spec fn next_seed(s: u32) -> u32 {
    s.wrapping_mul(1103515245).wrapping_add(12345)
}

/// The seed after `i` steps.
pub open spec fn seed_after(s0: u32, i: nat) -> u32
    decreases i,
{
    if i == 0 { s0 } else { next_seed(seed_after(s0, (i - 1) as nat)) }
}

/// Distance of a vertex from the centre: between 70% and 100% of the radius,
/// as the seed says.
pub open spec fn vertex_radius(radius: int, seed: u32) -> int {
    radius * (7_000 + 30 * (seed % 100)) / 10_000
}

/// The outline's vertices, vertex `i` along `spokes[i]`.
pub open spec fn outline(a: Asteroid, spokes: Seq<V2>) -> Seq<V2> {
    Seq::new(
        OUTLINE_VERTICES as nat,
        |i: int| {
            let r = vertex_radius(a.size.radius_spec(), seed_after(a.shape_seed, (i + 1) as nat));
            V2 {
                x: (a.pos.x + trunc_div(spokes[i].x * r, UNIT as int)) as i64,
                y: (a.pos.y + trunc_div(spokes[i].y * r, UNIT as int)) as i64,
            }
        },
    )
}

pub open spec fn asteroid_scene(a: Asteroid, spokes: Seq<V2>) -> Seq<DrawView> {
    seq![DrawView::Polyline { pts: outline(a, spokes), closed: true, stroke: white_stroke(15) }]
}

pub open spec fn spokes_ok(spokes: Seq<V2>) -> bool {
    spokes.len() == OUTLINE_VERTICES && forall|i: int| 0 <= i < spokes.len() ==> is_direction(#[trigger] spokes[i])
}

/// Draws an asteroid's outline along the given vertex directions.
pub fn render_asteroid(out: &mut Vec<DrawCmd>, asteroid: &Asteroid, spokes: &Vec<V2>)
    requires
        asteroid.wf(),
        spokes_ok(spokes@),
    ensures
        views(final(out)@) == views(old(out)@) + asteroid_scene(*asteroid, spokes@),
{
    let radius = asteroid.size.radius();
    let mut pts: Vec<V2> = Vec::new();
    let mut seed = asteroid.shape_seed;
    let mut i: usize = 0;
    while i < OUTLINE_VERTICES
        invariant
            i <= OUTLINE_VERTICES,
            seed == seed_after(asteroid.shape_seed, i as nat),
            pts@ == outline(*asteroid, spokes@).take(i as int),
            asteroid.wf(),
            radius == asteroid.size.radius_spec(),
            spokes_ok(spokes@),
        decreases OUTLINE_VERTICES - i,
    {
        seed = seed.wrapping_mul(1103515245).wrapping_add(12345);
        let r = radius * (7_000 + 30 * ((seed % 100) as i64)) / 10_000;
        assert(0 <= r <= 1_200);
        let d = spokes[i];
        assert(is_direction(spokes@[i as int]));
        let p = V2::new(asteroid.pos.x + mul_div(d.x, r, UNIT), asteroid.pos.y + mul_div(d.y, r, UNIT));
        pts.push(p);
        i = i + 1;
        assert(pts@ =~= outline(*asteroid, spokes@).take(i as int));
    }
    assert(pts@ =~= outline(*asteroid, spokes@));
    let ghost start = views(out@);
    emit(out, DrawCmd::Polyline { pts, closed: true, stroke: Stroke { color: Rgba::white(), width_tenths: 15 } });
    assert(views(out@) =~= start + asteroid_scene(*asteroid, spokes@));
}

pub open spec fn bullet_scene(b: Bullet) -> Seq<DrawView> {
    seq![
        DrawView::Polyline {
            pts: seq![V2 { x: (b.pos.x - 80) as i64, y: b.pos.y }, V2 { x: (b.pos.x + 80) as i64, y: b.pos.y }],
            closed: false,
            stroke: white_stroke(20),
        },
    ]
}

/// Draws a bullet as a short dash.
pub fn render_bullet(out: &mut Vec<DrawCmd>, bullet: &Bullet)
    requires
        bullet.wf(),
    ensures
        views(final(out)@) == views(old(out)@) + bullet_scene(*bullet),
{
    let pts = vec![V2::new(bullet.pos.x - 80, bullet.pos.y), V2::new(bullet.pos.x + 80, bullet.pos.y)];
    let ghost pp = pts@;
    let ghost start = views(out@);
    emit(out, DrawCmd::Polyline { pts, closed: false, stroke: Stroke { color: Rgba::white(), width_tenths: 20 } });
    assert(pp =~= seq![V2 { x: (bullet.pos.x - 80) as i64, y: bullet.pos.y }, V2 { x: (bullet.pos.x + 80) as i64, y: bullet.pos.y }]);
    assert(views(out@) =~= start + bullet_scene(*bullet));
}

/// Opacity of a particle, 0 to 255: its remaining share of its lifetime.
pub open spec fn alpha_spec(p: Particle) -> u8 {
    clamp_spec(trunc_div(p.lifetime * 255, PARTICLE_LIFETIME as int), 0, 255) as u8
}

/// A moving particle is a short streak along its velocity, fading with age;
/// one at rest has no direction and is not drawn.
pub open spec fn particle_scene(p: Particle) -> Seq<DrawView> {
    if p.vel.x == 0 && p.vel.y == 0 {
        seq![]
    } else {
        let len = floor_sqrt(p.vel.x * p.vel.x + p.vel.y * p.vel.y);
        seq![
            DrawView::Polyline {
                pts: seq![
                    p.pos,
                    V2 {
                        x: (p.pos.x + trunc_div(p.vel.x * 100, len)) as i64,
                        y: (p.pos.y + trunc_div(p.vel.y * 100, len)) as i64,
                    },
                ],
                closed: false,
                stroke: Stroke { color: Rgba { r: 255, g: 255, b: 255, a: alpha_spec(p) }, width_tenths: 10 },
            },
        ]
    }
}

/// Draws a particle.
pub fn render_particle(out: &mut Vec<DrawCmd>, particle: &Particle)
    requires
        particle.wf(),
    ensures
        views(final(out)@) == views(old(out)@) + particle_scene(*particle),
{
    let ghost start = views(out@);
    let v = particle.vel;
    if v.x == 0 && v.y == 0 {
        assert(views(out@) =~= start + particle_scene(*particle));
        return;
    }
    let x = v.x as i128;
    let y = v.y as i128;
    assert(0 <= x * x <= 100_000_000) by (nonlinear_arith) requires -10_000 <= x <= 10_000;
    assert(0 <= y * y <= 100_000_000) by (nonlinear_arith) requires -10_000 <= y <= 10_000;
    assert(x * x + y * y >= 1) by (nonlinear_arith) requires x != 0 || y != 0;
    let n = x * x + y * y;
    let len = isqrt(n as u64);
    assert(len >= 1) by (nonlinear_arith) requires n < (len + 1) * (len + 1), n >= 1, len >= 0;
    assert(len <= 20_000) by (nonlinear_arith) requires len * len <= n, n <= 200_000_000, len >= 0;
    assert(abs_int(v.x as int) <= len) by (nonlinear_arith) requires x * x <= n, n < (len + 1) * (len + 1), len >= 0, x == v.x;
    assert(abs_int(v.y as int) <= len) by (nonlinear_arith) requires y * y <= n, n < (len + 1) * (len + 1), len >= 0, y == v.y;
    let l = len as i64;
    let dx = mul_div(v.x, 100, l);
    let dy = mul_div(v.y, 100, l);
    proof {
        lemma_ratio_bound(v.x as int, 100, l as int);
        lemma_ratio_bound(v.y as int, 100, l as int);
    }
    let pts = vec![particle.pos, V2::new(particle.pos.x + dx, particle.pos.y + dy)];
    let ghost pp = pts@;
    let a = particle.alpha();
    emit(out, DrawCmd::Polyline { pts, closed: false, stroke: Stroke { color: Rgba { r: 255, g: 255, b: 255, a }, width_tenths: 10 } });
    assert(pp =~= seq![
        particle.pos,
        V2 {
            x: (particle.pos.x + trunc_div(v.x * 100, len as int)) as i64,
            y: (particle.pos.y + trunc_div(v.y * 100, len as int)) as i64,
        },
    ]);
    assert(views(out@) =~= start + particle_scene(*particle));
}

impl Particle {
    /// Opacity, 0 to 255: the remaining share of the particle's lifetime.
    pub fn alpha(&self) -> (r: u8)
        requires
            self.wf(),
        ensures
            r == alpha_spec(*self),
    {
        let a = mul_div(self.lifetime, 255, PARTICLE_LIFETIME);
        if a < 0 { 0 } else if a > 255 { 255 } else { a as u8 }
    }
}

pub open spec fn life_icon(i: int) -> DrawView {
    let x = -9_000 + 500 * i;
    DrawView::Polyline {
        pts: seq![V2 { x: (x + 150) as i64, y: 7_500 }, V2 { x: (x - 100) as i64, y: 7_580 }, V2 { x: (x - 100) as i64, y: 7_420 }],
        closed: true,
        stroke: white_stroke(10),
    }
}

/// The score in five zero-padded digits, and one ship icon per life.
pub open spec fn hud_scene(score: u32, lives: u8) -> Seq<DrawView> {
    seq![
        DrawView::Text {
            pos: V2 { x: -9_000i64, y: 8_500 },
            text: zero_pad(decimal_spec(score as nat), 5),
            size_px: 16,
            color: Rgba::white_spec(),
        },
    ] + Seq::new(lives as nat, |i: int| life_icon(i))
}

/// Draws the score and the remaining lives.
pub fn render_hud(out: &mut Vec<DrawCmd>, score: u32, lives: u8)
    ensures
        views(final(out)@) == views(old(out)@) + hud_scene(score, lives),
{
    let ghost start = views(out@);
    let t = padded_decimal(score, 5);
    emit(out, DrawCmd::Text { pos: V2::new(-9_000, 8_500), text: t, size_px: 16, color: Rgba::white() });
    let ghost head = views(out@);
    let mut i: u8 = 0;
    while i < lives
        invariant
            i <= lives,
            views(out@) == head + Seq::new(i as nat, |k: int| life_icon(k)),
        decreases lives - i,
    {
        let x: i64 = -9_000 + 500 * (i as i64);
        let pts = vec![V2::new(x + 150, 7_500), V2::new(x - 100, 7_580), V2::new(x - 100, 7_420)];
        let ghost pp = pts@;
        emit(out, DrawCmd::Polyline { pts, closed: true, stroke: Stroke { color: Rgba::white(), width_tenths: 10 } });
        assert(pp =~= seq![V2 { x: (x + 150) as i64, y: 7_500 }, V2 { x: (x - 100) as i64, y: 7_580 }, V2 { x: (x - 100) as i64, y: 7_420 }]);
        i = i + 1;
        assert(views(out@) =~= head + Seq::new(i as nat, |k: int| life_icon(k)));
    }
    assert(views(out@) =~= start + hud_scene(score, lives));
}

pub open spec fn game_over_scene() -> Seq<DrawView> {
    seq![DrawView::Text { pos: V2 { x: -2_500i64, y: 0 }, text: "GAME OVER"@, size_px: 24, color: Rgba::white_spec() }]
}

pub open spec fn rocks_scene(s: Seq<Asteroid>, spokes: Seq<Seq<V2>>, n: int) -> Seq<DrawView>
    decreases n,
{
    if n <= 0 { seq![] } else { rocks_scene(s, spokes, n - 1) + asteroid_scene(s[n - 1], spokes[n - 1]) }
}

pub open spec fn bullets_scene(s: Seq<Bullet>, n: int) -> Seq<DrawView>
    decreases n,
{
    if n <= 0 { seq![] } else { bullets_scene(s, n - 1) + bullet_scene(s[n - 1]) }
}

pub open spec fn particles_scene(s: Seq<Particle>, n: int) -> Seq<DrawView>
    decreases n,
{
    if n <= 0 { seq![] } else { particles_scene(s, n - 1) + particle_scene(s[n - 1]) }
}

/// A frame: the screen cleared; the ship unless the game is over or it is
/// protected after losing a life; the asteroids, bullets and particles; the
/// score and lives; and GAME OVER once the game has ended.
pub open spec fn asteroids_scene(v: AsteroidsView, facing: V2, spokes: Seq<Seq<V2>>) -> Seq<DrawView> {
    seq![DrawView::Clear { color: Rgba::black_spec() }]
        + (if !v.game_over && v.respawn_timer <= 0 { ship_scene(v.ship, facing) } else { seq![] })
        + rocks_scene(v.asteroids, spokes, v.asteroids.len() as int)
        + bullets_scene(v.bullets, v.bullets.len() as int)
        + particles_scene(v.particles, v.particles.len() as int)
        + hud_scene(v.score, v.lives)
        + (if v.game_over { game_over_scene() } else { seq![] })
}

impl crate::asteroids::Asteroids {
    /// The draw commands of a frame, a function of the state and the host's
    /// unit vectors alone: two renders with no update between them give the
    /// same commands. `spokes[i]` holds the outline directions of asteroid
    /// `i`.
    pub fn render(&self, facing: V2, spokes: &Vec<Vec<V2>>) -> (out: Vec<DrawCmd>)
        requires
            self@.wf(),
            is_direction(facing),
            spokes.len() == self.asteroids.len(),
            forall|i: int| 0 <= i < spokes.len() ==> spokes_ok(#[trigger] spokes@[i]@),
        ensures
            views(out@) == asteroids_scene(self@, facing, spokes@.map_values(|s: Vec<V2>| s@)),
    {
        let ghost sp = spokes@.map_values(|s: Vec<V2>| s@);
        let ghost v = self@;
        let mut out: Vec<DrawCmd> = Vec::new();
        emit(&mut out, DrawCmd::Clear { color: Rgba::black() });
        if !self.game_over && self.respawn_timer <= 0 {
            render_ship(&mut out, &self.ship, facing);
        }
        let ghost after_ship = views(out@);
        let mut i: usize = 0;
        while i < self.asteroids.len()
            invariant
                i <= self.asteroids.len(),
                self@ == v,
                v.wf(),
                spokes.len() == self.asteroids.len(),
                forall|k: int| 0 <= k < spokes.len() ==> spokes_ok(#[trigger] spokes@[k]@),
                sp == spokes@.map_values(|s: Vec<V2>| s@),
                views(out@) == after_ship + rocks_scene(v.asteroids, sp, i as int),
            decreases self.asteroids.len() - i,
        {
            assert(v.asteroids[i as int].wf());
            assert(spokes_ok(spokes@[i as int]@));
            render_asteroid(&mut out, &self.asteroids[i], &spokes[i]);
            i = i + 1;
            assert(views(out@) =~= after_ship + rocks_scene(v.asteroids, sp, i as int));
        }
        let ghost after_rocks = views(out@);
        let mut j: usize = 0;
        while j < self.bullets.len()
            invariant
                j <= self.bullets.len(),
                self@ == v,
                v.wf(),
                views(out@) == after_rocks + bullets_scene(v.bullets, j as int),
            decreases self.bullets.len() - j,
        {
            assert(v.bullets[j as int].wf());
            render_bullet(&mut out, &self.bullets[j]);
            j = j + 1;
            assert(views(out@) =~= after_rocks + bullets_scene(v.bullets, j as int));
        }
        let ghost after_bullets = views(out@);
        let mut k: usize = 0;
        while k < self.particles.len()
            invariant
                k <= self.particles.len(),
                self@ == v,
                v.wf(),
                views(out@) == after_bullets + particles_scene(v.particles, k as int),
            decreases self.particles.len() - k,
        {
            assert(v.particles[k as int].wf());
            render_particle(&mut out, &self.particles[k]);
            k = k + 1;
            assert(views(out@) =~= after_bullets + particles_scene(v.particles, k as int));
        }
        render_hud(&mut out, self.score, self.lives);
        if self.game_over {
            let ghost before = views(out@);
            emit(&mut out, DrawCmd::Text { pos: V2::new(-2_500, 0), text: text_of("GAME OVER"), size_px: 24, color: Rgba::white() });
            assert(views(out@) =~= before + game_over_scene());
        }
        assert(views(out@) =~= asteroids_scene(self@, facing, sp));
        out
    }
}

} // verus!
