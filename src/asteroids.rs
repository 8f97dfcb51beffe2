//! Asteroids: a ship in a wrap-around field shoots rocks that break into
//! smaller pieces.
//!
//! Each update takes, besides the keys and the time step, the ship's facing
//! (the unit vector of its heading after steering, see
//! [`Asteroids::steered_angle`]) and a [`Supply`] of random draws, consumed in
//! order.

use vstd::prelude::*;
use crate::geom::{
    abs_int, advance_by, circles_collide, circles_collide_spec, dt_ok, floor_sqrt, in_field,
    is_direction, isqrt, lemma_over_dt_bound, lemma_ratio_bound, lemma_shrink, mul_div, over_dt,
    scale, scale_spec, trunc_div, turn, turn_spec, wrap_position, wrap_spec, ANGLE_LIMIT,
    TICKS_PER_SEC, UNIT, V2,
};
use crate::input::Keys;

pub mod entities;
pub mod rendering;

use self::entities::{
    Asteroid, AsteroidDraw, AsteroidSize, Bullet, Particle, Ship, SparkDraw, SplitDraw,
    BULLET_LIFETIME, BULLET_SPEED, PARTICLE_LIFETIME, SHIP_VEL_CAP,
};

verus! {

/// Most asteroids in the field at once.
pub const MAX_ASTEROIDS: usize = 20;
/// Most bullets in flight at once.
pub const MAX_BULLETS: usize = 8;
/// Most explosion particles at once.
pub const MAX_PARTICLES: usize = 50;
/// Particles thrown out by one explosion.
pub const SPARKS_PER_EXPLOSION: usize = 8;
/// Turning rate, angle units per second.
pub const ROTATION_SPEED: i64 = 40_000;
/// Thrust, distance units per second squared.
pub const THRUST_ACCEL: i64 = 10_000;
/// Top speed under thrust.
pub const MAX_SPEED: i64 = 8_000;
/// Ticks between two shots.
pub const FIRE_COOLDOWN: i64 = 15_000;
/// Collision radius of the ship.
pub const SHIP_RADIUS: i64 = 300;
/// Distance ahead of the ship's centre at which a bullet appears.
pub const MUZZLE: i64 = 400;
/// Ticks of protection after losing a life.
pub const RESPAWN_TIME: i64 = 120_000;
/// What one update takes off the protection timer, whatever its time step.
pub const RESPAWN_STEP: i64 = 1_000;
/// Lives at the start of a game.
pub const START_LIVES: u8 = 3;

/// The random draws that one update or reset may consume.
pub struct Supply {
    /// Placements of new asteroids, one per asteroid of a new level.
    pub spawns: Vec<AsteroidDraw>,
    /// Placements of pieces, two per broken asteroid.
    pub splits: Vec<SplitDraw>,
    /// Particles, one per particle of an explosion.
    pub sparks: Vec<SparkDraw>,
}

impl Supply {
    /// Enough valid draws for any one update.
    pub open spec fn wf(&self) -> bool {
        &&& self.spawns.len() >= MAX_ASTEROIDS
        &&& self.splits.len() >= 2 * MAX_BULLETS
        &&& self.sparks.len() >= MAX_PARTICLES
        &&& forall|i: int| 0 <= i < self.spawns.len() ==> (#[trigger] self.spawns@[i]).wf()
        &&& forall|i: int| 0 <= i < self.splits.len() ==> (#[trigger] self.splits@[i]).wf()
        &&& forall|i: int| 0 <= i < self.sparks.len() ==> (#[trigger] self.sparks@[i]).wf()
    }
}

/// The whole state of a game of Asteroids.
pub struct Asteroids {
    pub ship: Ship,
    pub asteroids: Vec<Asteroid>,
    pub bullets: Vec<Bullet>,
    pub particles: Vec<Particle>,
    pub score: u32,
    pub lives: u8,
    pub level: u8,
    pub game_over: bool,
    /// Ticks of protection left after losing a life; the ship is neither hit
    /// nor drawn while it is positive.
    pub respawn_timer: i64,
    /// Ticks until the ship may fire again.
    pub fire_timer: i64,
}

/// The state of a game as values.
pub struct AsteroidsView {
    pub ship: Ship,
    pub asteroids: Seq<Asteroid>,
    pub bullets: Seq<Bullet>,
    pub particles: Seq<Particle>,
    pub score: u32,
    pub lives: u8,
    pub level: u8,
    pub game_over: bool,
    pub respawn_timer: i64,
    pub fire_timer: i64,
}

impl View for Asteroids {
    type V = AsteroidsView;

    open spec fn view(&self) -> AsteroidsView {
        AsteroidsView {
            ship: self.ship,
            asteroids: self.asteroids@,
            bullets: self.bullets@,
            particles: self.particles@,
            score: self.score,
            lives: self.lives,
            level: self.level,
            game_over: self.game_over,
            respawn_timer: self.respawn_timer,
            fire_timer: self.fire_timer,
        }
    }
}

pub open spec fn all_asteroids_wf(s: Seq<Asteroid>) -> bool {
    forall|i: int| 0 <= i < s.len() ==> (#[trigger] s[i]).wf()
}

pub open spec fn all_in_field(s: Seq<Asteroid>) -> bool {
    forall|i: int| 0 <= i < s.len() ==> in_field((#[trigger] s[i]).pos.x as int) && in_field(s[i].pos.y as int)
}

pub open spec fn all_bullets_wf(s: Seq<Bullet>) -> bool {
    forall|i: int| 0 <= i < s.len() ==> (#[trigger] s[i]).wf()
}

pub open spec fn all_particles_wf(s: Seq<Particle>) -> bool {
    forall|i: int| 0 <= i < s.len() ==> (#[trigger] s[i]).wf()
}

impl AsteroidsView {
    pub open spec fn wf(self) -> bool {
        &&& self.ship.wf()
        &&& self.asteroids.len() <= MAX_ASTEROIDS
        &&& all_asteroids_wf(self.asteroids)
        &&& self.bullets.len() <= MAX_BULLETS
        &&& all_bullets_wf(self.bullets)
        &&& self.particles.len() <= MAX_PARTICLES
        &&& all_particles_wf(self.particles)
        &&& -RESPAWN_STEP < self.respawn_timer <= RESPAWN_TIME
        &&& 0 <= self.fire_timer <= FIRE_COOLDOWN
    }
}

// ---------------------------------------------------------------------------
// The ship.

/// The heading after one update's steering: Left turns one way, Right the
/// other; the heading accumulates without wrapping.
pub open spec fn steer_spec(angle: int, keys: Keys, dt: int) -> int {
    let a1 = if keys.left.is_down { turn_spec(angle, over_dt(ROTATION_SPEED as int, dt)) } else { angle };
    if keys.right.is_down { turn_spec(a1, -over_dt(ROTATION_SPEED as int, dt)) } else { a1 }
}

/// A velocity limited to `MAX_SPEED`, keeping its direction.
pub open spec fn cap_speed_spec(v: V2) -> V2 {
    let n = v.x * v.x + v.y * v.y;
    if n > MAX_SPEED * MAX_SPEED {
        let len = floor_sqrt(n);
        V2 {
            x: trunc_div(v.x * MAX_SPEED, len) as i64,
            y: trunc_div(v.y * MAX_SPEED, len) as i64,
        }
    } else {
        v
    }
}

/// Friction: without thrust the velocity loses half of itself per second.
pub open spec fn friction_spec(v: V2, dt: int) -> V2 {
    let k = 2 * TICKS_PER_SEC;
    V2 { x: trunc_div(v.x * (k - dt), k) as i64, y: trunc_div(v.y * (k - dt), k) as i64 }
}

/// The ship after one update: steer, thrust (Up or W) along `facing` or
/// coast under friction, then move and wrap around the field.
pub open spec fn ship_step(s: Ship, keys: Keys, facing: V2, dt: int) -> Ship {
    let angle = steer_spec(s.angle as int, keys, dt);
    let thrust = keys.up.is_down || keys.w.is_down;
    let vel = if thrust {
        let acc = scale_spec(facing, THRUST_ACCEL as int);
        cap_speed_spec(
            V2 {
                x: (s.vel.x + over_dt(acc.x as int, dt)) as i64,
                y: (s.vel.y + over_dt(acc.y as int, dt)) as i64,
            },
        )
    } else {
        friction_spec(s.vel, dt)
    };
    Ship {
        pos: V2 {
            x: wrap_spec(s.pos.x + over_dt(vel.x as int, dt)) as i64,
            y: wrap_spec(s.pos.y + over_dt(vel.y as int, dt)) as i64,
        },
        vel,
        angle: angle as i64,
        thrusting: thrust,
    }
}

fn steer(angle: i64, keys: &Keys, dt: i64) -> (r: i64)
    requires
        -ANGLE_LIMIT <= angle <= ANGLE_LIMIT,
        dt_ok(dt as int),
    ensures
        r == steer_spec(angle as int, *keys, dt as int),
        -ANGLE_LIMIT <= r <= ANGLE_LIMIT,
{
    proof {
        lemma_over_dt_bound(ROTATION_SPEED as int, dt as int);
    }
    let d = mul_div(ROTATION_SPEED, dt, TICKS_PER_SEC);
    let a1 = if keys.left.is_down { turn(angle, d) } else { angle };
    if keys.right.is_down { turn(a1, -d) } else { a1 }
}

fn cap_speed(v: V2) -> (r: V2)
    requires
        abs_int(v.x as int) <= 2 * SHIP_VEL_CAP,
        abs_int(v.y as int) <= 2 * SHIP_VEL_CAP,
    ensures
        r == cap_speed_spec(v),
        abs_int(r.x as int) <= SHIP_VEL_CAP,
        abs_int(r.y as int) <= SHIP_VEL_CAP,
{
    let x = v.x as i128;
    let y = v.y as i128;
    assert(0 <= x * x <= 1_024_000_000) by (nonlinear_arith) requires -32_000 <= x <= 32_000;
    assert(0 <= y * y <= 1_024_000_000) by (nonlinear_arith) requires -32_000 <= y <= 32_000;
    let n = x * x + y * y;
    if n > (MAX_SPEED as i128) * (MAX_SPEED as i128) {
        let len = isqrt(n as u64);
        assert(len >= MAX_SPEED) by (nonlinear_arith)
            requires n < (len + 1) * (len + 1), n > MAX_SPEED * MAX_SPEED, len >= 0;
        assert(abs_int(x as int) <= len) by (nonlinear_arith)
            requires x * x <= n, n < (len + 1) * (len + 1), len >= 0;
        assert(abs_int(y as int) <= len) by (nonlinear_arith)
            requires y * y <= n, n < (len + 1) * (len + 1), len >= 0;
        assert(len <= 100_000) by (nonlinear_arith)
            requires len * len <= n, n <= 2_048_000_000, len >= 0;
        let l = len as i64;
        let rx = mul_div(v.x, MAX_SPEED, l);
        let ry = mul_div(v.y, MAX_SPEED, l);
        proof {
            lemma_ratio_bound(v.x as int, MAX_SPEED as int, l as int);
            lemma_ratio_bound(v.y as int, MAX_SPEED as int, l as int);
        }
        V2::new(rx, ry)
    } else {
        assert(abs_int(v.x as int) <= MAX_SPEED) by (nonlinear_arith)
            requires x * x <= n, n <= MAX_SPEED * MAX_SPEED, x == v.x;
        assert(abs_int(v.y as int) <= MAX_SPEED) by (nonlinear_arith)
            requires y * y <= n, n <= MAX_SPEED * MAX_SPEED, y == v.y;
        v
    }
}

/// Steers, thrusts or coasts, and moves the ship for `dt` ticks. `facing` is
/// the unit vector of the ship's heading after steering.
pub fn update_ship(ship: &mut Ship, keys: &Keys, facing: V2, dt: i64)
    requires
        old(ship).wf(),
        is_direction(facing),
        dt_ok(dt as int),
    ensures
        *final(ship) == ship_step(*old(ship), *keys, facing, dt as int),
        final(ship).wf(),
{
    let angle = steer(ship.angle, keys, dt);
    let thrust = keys.up.is_down || keys.w.is_down;
    let vel = if thrust {
        let acc = scale(facing, THRUST_ACCEL);
        proof {
            lemma_over_dt_bound(acc.x as int, dt as int);
            lemma_over_dt_bound(acc.y as int, dt as int);
        }
        let vx = crate::geom::advance(ship.vel.x, acc.x, dt);
        let vy = crate::geom::advance(ship.vel.y, acc.y, dt);
        cap_speed(V2::new(vx, vy))
    } else {
        let k: i64 = 2 * TICKS_PER_SEC;
        let vx = mul_div(ship.vel.x, k - dt, k);
        let vy = mul_div(ship.vel.y, k - dt, k);
        proof {
            lemma_ratio_bound(ship.vel.x as int, (k - dt) as int, k as int);
            lemma_ratio_bound(ship.vel.y as int, (k - dt) as int, k as int);
            assert(abs_int(vx as int) <= abs_int(ship.vel.x as int)) by {
                lemma_shrink(ship.vel.x as int, (k - dt) as int, k as int);
            }
            assert(abs_int(vy as int) <= abs_int(ship.vel.y as int)) by {
                lemma_shrink(ship.vel.y as int, (k - dt) as int, k as int);
            }
        }
        V2::new(vx, vy)
    };
    proof {
        lemma_over_dt_bound(vel.x as int, dt as int);
        lemma_over_dt_bound(vel.y as int, dt as int);
    }
    let pos = wrap_position(advance_by(ship.pos, vel, dt));
    ship.pos = pos;
    ship.vel = vel;
    ship.angle = angle;
    ship.thrusting = thrust;
}

// ---------------------------------------------------------------------------
// Bullets, asteroids and particles drift; spent ones are removed.

/// The bullets after one update: each flies and ages, and those whose
/// lifetime ran out are removed, the others keeping their order.
pub open spec fn bullets_after(s: Seq<Bullet>, dt: int) -> Seq<Bullet>
    decreases s.len(),
{
    if s.len() == 0 {
        Seq::empty()
    } else {
        let rest = bullets_after(s.drop_last(), dt);
        let b = s.last().step_spec(dt);
        if b.alive_spec() {
            rest.push(b)
        } else {
            rest
        }
    }
}

/// The particles after one update, in the same way as the bullets.
pub open spec fn particles_after(s: Seq<Particle>, dt: int) -> Seq<Particle>
    decreases s.len(),
{
    if s.len() == 0 {
        Seq::empty()
    } else {
        let rest = particles_after(s.drop_last(), dt);
        let p = s.last().step_spec(dt);
        if p.alive_spec() {
            rest.push(p)
        } else {
            rest
        }
    }
}

pub open spec fn asteroids_after(s: Seq<Asteroid>, dt: int) -> Seq<Asteroid> {
    Seq::new(s.len(), |i: int| s[i].step_spec(dt))
}

/// Moves and ages every bullet, then drops those whose time is up.
pub fn update_bullets(bullets: &mut Vec<Bullet>, dt: i64)
    requires
        all_bullets_wf(old(bullets)@),
        dt_ok(dt as int),
    ensures
        final(bullets)@ == bullets_after(old(bullets)@, dt as int),
        final(bullets).len() <= old(bullets).len(),
        all_bullets_wf(final(bullets)@),
{
    let mut out: Vec<Bullet> = Vec::new();
    let mut i: usize = 0;
    while i < bullets.len()
        invariant
            i <= bullets.len(),
            bullets@ == old(bullets)@,
            all_bullets_wf(bullets@),
            out@ == bullets_after(bullets@.take(i as int), dt as int),
            out.len() <= i,
            all_bullets_wf(out@),
            dt_ok(dt as int),
        decreases bullets.len() - i,
    {
        let mut b = bullets[i];
        b.update(dt);
        if b.is_alive() {
            out.push(b);
        }
        assert(bullets@.take(i as int + 1).drop_last() =~= bullets@.take(i as int));
        i = i + 1;
    }
    assert(bullets@.take(i as int) =~= bullets@);
    *bullets = out;
}

/// Moves and ages every particle, then drops those whose time is up.
pub fn update_particles(particles: &mut Vec<Particle>, dt: i64)
    requires
        all_particles_wf(old(particles)@),
        dt_ok(dt as int),
    ensures
        final(particles)@ == particles_after(old(particles)@, dt as int),
        final(particles).len() <= old(particles).len(),
        all_particles_wf(final(particles)@),
{
    let mut out: Vec<Particle> = Vec::new();
    let mut i: usize = 0;
    while i < particles.len()
        invariant
            i <= particles.len(),
            particles@ == old(particles)@,
            all_particles_wf(particles@),
            out@ == particles_after(particles@.take(i as int), dt as int),
            out.len() <= i,
            all_particles_wf(out@),
            dt_ok(dt as int),
        decreases particles.len() - i,
    {
        let mut p = particles[i];
        p.update(dt);
        if p.is_alive() {
            out.push(p);
        }
        assert(particles@.take(i as int + 1).drop_last() =~= particles@.take(i as int));
        i = i + 1;
    }
    assert(particles@.take(i as int) =~= particles@);
    *particles = out;
}

/// Moves every asteroid, wrapping around the field; none is removed.
pub fn update_asteroids(asteroids: &mut Vec<Asteroid>, dt: i64)
    requires
        all_asteroids_wf(old(asteroids)@),
        dt_ok(dt as int),
    ensures
        final(asteroids)@ == asteroids_after(old(asteroids)@, dt as int),
        all_asteroids_wf(final(asteroids)@),
        all_in_field(final(asteroids)@),
{
    let mut out: Vec<Asteroid> = Vec::new();
    let mut i: usize = 0;
    while i < asteroids.len()
        invariant
            i <= asteroids.len(),
            asteroids@ == old(asteroids)@,
            all_asteroids_wf(asteroids@),
            out.len() == i,
            forall|j: int| 0 <= j < i ==> #[trigger] out@[j] == asteroids@[j].step_spec(dt as int),
            all_asteroids_wf(out@),
            all_in_field(out@),
            dt_ok(dt as int),
        decreases asteroids.len() - i,
    {
        let mut a = asteroids[i];
        a.update(dt);
        out.push(a);
        i = i + 1;
    }
    assert(out@ =~= asteroids_after(old(asteroids)@, dt as int));
    *asteroids = out;
}

// ---------------------------------------------------------------------------
// Shooting.

/// Fire timer after `dt` ticks; it stops at zero.
pub open spec fn cool_spec(t: int, dt: int) -> int {
    if t > dt { t - dt } else { 0 }
}

/// Whether the ship fires in this update: space held, the timer run out,
/// and room for another bullet.
pub open spec fn fires_spec(keys: Keys, timer: int, n_bullets: int) -> bool {
    keys.space.is_down && timer <= 0 && n_bullets < MAX_BULLETS
}

/// The bullet the ship fires: just ahead of it along its facing, wrapping
/// around the field.
pub open spec fn shot_spec(ship: Ship, facing: V2) -> Bullet {
    let m = scale_spec(facing, MUZZLE as int);
    Bullet {
        pos: V2 { x: wrap_spec(ship.pos.x + m.x) as i64, y: wrap_spec(ship.pos.y + m.y) as i64 },
        vel: scale_spec(facing, BULLET_SPEED as int),
        lifetime: BULLET_LIFETIME,
    }
}

/// Counts the fire timer down and fires a bullet when space is held, the
/// timer has run out and fewer than `MAX_BULLETS` are in flight; firing
/// restarts the timer.
pub fn handle_shooting(
    ship: &Ship,
    bullets: &mut Vec<Bullet>,
    fire_timer: &mut i64,
    keys: &Keys,
    facing: V2,
    dt: i64,
)
    requires
        ship.wf(),
        is_direction(facing),
        all_bullets_wf(old(bullets)@),
        old(bullets).len() <= MAX_BULLETS,
        0 <= *old(fire_timer) <= FIRE_COOLDOWN,
        dt_ok(dt as int),
    ensures
        ({
            let t = cool_spec(*old(fire_timer) as int, dt as int);
            if fires_spec(*keys, t, old(bullets).len() as int) {
                &&& final(bullets)@ == old(bullets)@.push(shot_spec(*ship, facing))
                &&& *final(fire_timer) == FIRE_COOLDOWN
            } else {
                &&& final(bullets)@ == old(bullets)@
                &&& *final(fire_timer) == t
            }
        }),
        all_bullets_wf(final(bullets)@),
        final(bullets).len() <= MAX_BULLETS,
        0 <= *final(fire_timer) <= FIRE_COOLDOWN,
{
    let t: i64 = if *fire_timer > dt { *fire_timer - dt } else { 0 };
    *fire_timer = t;
    if keys.space.is_down && t <= 0 && bullets.len() < MAX_BULLETS {
        let m = scale(facing, MUZZLE);
        let b = Bullet::new(wrap_position(V2::new(ship.pos.x + m.x, ship.pos.y + m.y)), facing);
        bullets.push(b);
        *fire_timer = FIRE_COOLDOWN;
        assert(bullets@.last() == b);
    }
}

// ---------------------------------------------------------------------------
// Explosions.

/// Particles one explosion adds: eight, or fewer where that would pass the
/// ceiling.
pub open spec fn spark_count(len: int) -> int {
    if len >= MAX_PARTICLES {
        0
    } else if MAX_PARTICLES - len < SPARKS_PER_EXPLOSION {
        MAX_PARTICLES - len
    } else {
        SPARKS_PER_EXPLOSION as int
    }
}

pub open spec fn spark_particle(pos: V2, d: SparkDraw) -> Particle {
    Particle { pos, vel: scale_spec(d.dir, d.speed as int), lifetime: PARTICLE_LIFETIME }
}

/// An explosion at `pos` whose particles take the draws from `k` on.
pub open spec fn explode_spec(ps: Seq<Particle>, pos: V2, sparks: Seq<SparkDraw>, k: int) -> Seq<Particle> {
    ps + Seq::new(spark_count(ps.len() as int) as nat, |j: int| spark_particle(pos, sparks[k + j]))
}

/// Adds the particles of an explosion at `pos`, using the draws from `k` on;
/// returns how many draws it used.
pub fn spawn_explosion(particles: &mut Vec<Particle>, pos: V2, sparks: &Vec<SparkDraw>, k: usize) -> (used: usize)
    requires
        in_field(pos.x as int),
        in_field(pos.y as int),
        all_particles_wf(old(particles)@),
        old(particles).len() <= MAX_PARTICLES,
        k + spark_count(old(particles).len() as int) <= sparks.len(),
        forall|i: int| 0 <= i < sparks.len() ==> (#[trigger] sparks@[i]).wf(),
    ensures
        final(particles)@ == explode_spec(old(particles)@, pos, sparks@, k as int),
        used == spark_count(old(particles).len() as int),
        final(particles).len() == old(particles).len() + used,
        final(particles).len() <= MAX_PARTICLES,
        all_particles_wf(final(particles)@),
{
    let ghost start = particles@;
    let mut n: usize = 0;
    while n < SPARKS_PER_EXPLOSION && particles.len() < MAX_PARTICLES
        invariant
            n <= SPARKS_PER_EXPLOSION,
            particles.len() == start.len() + n,
            particles.len() <= MAX_PARTICLES,
            n <= spark_count(start.len() as int),
            particles@ == start + Seq::new(n as nat, |j: int| spark_particle(pos, sparks@[k + j])),
            all_particles_wf(particles@),
            k + spark_count(start.len() as int) <= sparks.len(),
            forall|i: int| 0 <= i < sparks.len() ==> (#[trigger] sparks@[i]).wf(),
            in_field(pos.x as int),
            in_field(pos.y as int),
        decreases SPARKS_PER_EXPLOSION - n,
    {
        let d = sparks[k + n];
        let p = Particle::new(pos, scale(d.dir, d.speed));
        particles.push(p);
        n = n + 1;
        assert(particles@ =~= start + Seq::new(n as nat, |j: int| spark_particle(pos, sparks@[k + j])));
    }
    assert(n == spark_count(start.len() as int));
    n
}

// ---------------------------------------------------------------------------
// Collisions.

/// The first asteroid, from index `i` on, that a circle of radius `r` at `p`
/// overlaps; the length of `s` when there is none.
pub open spec fn first_touch(p: V2, r: int, s: Seq<Asteroid>, i: int) -> int
    decreases s.len() - i,
{
    if i < 0 || i >= s.len() {
        s.len() as int
    } else if circles_collide_spec(p, r, s[i].pos, s[i].size.radius_spec()) {
        i
    } else {
        first_touch(p, r, s, i + 1)
    }
}

/// The pieces that a destroyed asteroid breaks into, taking two split draws
/// from `k` on: two of the next smaller size, none for the smallest.
pub open spec fn pieces_spec(a: Asteroid, splits: Seq<SplitDraw>, k: int) -> Seq<Asteroid> {
    if a.size.split_spec().is_some() {
        seq![Asteroid::spawn_split_spec(a, splits[k]), Asteroid::spawn_split_spec(a, splits[k + 1])]
    } else {
        seq![]
    }
}

/// Bullet-against-asteroid results so far, over the bullets in order.
pub struct Hits {
    pub asteroids: Seq<Asteroid>,
    /// Bullets that hit nothing and stay in flight.
    pub kept: Seq<Bullet>,
    pub particles: Seq<Particle>,
    /// Pieces of destroyed asteroids, waiting to join the field.
    pub children: Seq<Asteroid>,
    pub score: u32,
    pub sparks_used: int,
    pub splits_used: int,
}

/// One bullet against the asteroids: it destroys the first one it is inside
/// (removed by moving the last asteroid into its place), which scores its
/// points, explodes and leaves its pieces; a bullet that hits nothing stays.
pub open spec fn hit_step(h: Hits, b: Bullet, sparks: Seq<SparkDraw>, splits: Seq<SplitDraw>) -> Hits {
    let j = first_touch(b.pos, 0, h.asteroids, 0);
    if j >= h.asteroids.len() {
        Hits { kept: h.kept.push(b), ..h }
    } else {
        let a = h.asteroids[j];
        let kids = pieces_spec(a, splits, h.splits_used);
        Hits {
            asteroids: h.asteroids.update(j, h.asteroids.last()).drop_last(),
            kept: h.kept,
            particles: explode_spec(h.particles, a.pos, sparks, h.sparks_used),
            children: h.children + kids,
            score: h.score.saturating_add(a.size.points_spec()),
            sparks_used: h.sparks_used + spark_count(h.particles.len() as int),
            splits_used: h.splits_used + kids.len(),
        }
    }
}

/// All bullets, in order, against the asteroids.
pub open spec fn hits_over(h0: Hits, bs: Seq<Bullet>, sparks: Seq<SparkDraw>, splits: Seq<SplitDraw>) -> Hits
    decreases bs.len(),
{
    if bs.len() == 0 {
        h0
    } else {
        hit_step(hits_over(h0, bs.drop_last(), sparks, splits), bs.last(), sparks, splits)
    }
}

/// Pieces join the field in order while it has room; the rest are dropped.
pub open spec fn cap_extend(s: Seq<Asteroid>, kids: Seq<Asteroid>) -> Seq<Asteroid> {
    let room = MAX_ASTEROIDS - s.len();
    if kids.len() <= room {
        s + kids
    } else {
        s + kids.take(room)
    }
}

/// The game after collisions: bullets against asteroids, then, unless the
/// ship is protected, the ship against the asteroids. A protected ship's
/// timer counts down by `RESPAWN_STEP` instead.
pub open spec fn collide_phase(v: AsteroidsView, sparks: Seq<SparkDraw>, splits: Seq<SplitDraw>) -> AsteroidsView {
    let h0 = Hits {
        asteroids: v.asteroids,
        kept: Seq::empty(),
        particles: v.particles,
        children: Seq::empty(),
        score: v.score,
        sparks_used: 0,
        splits_used: 0,
    };
    let h = hits_over(h0, v.bullets, sparks, splits);
    let asts = cap_extend(h.asteroids, h.children);
    let v1 = AsteroidsView {
        asteroids: asts,
        bullets: h.kept,
        particles: h.particles,
        score: h.score,
        ..v
    };
    if v.respawn_timer > 0 {
        AsteroidsView { respawn_timer: (v.respawn_timer - RESPAWN_STEP) as i64, ..v1 }
    } else if first_touch(v.ship.pos, SHIP_RADIUS as int, asts, 0) >= asts.len() {
        v1
    } else {
        let lives = v.lives.saturating_sub(1);
        let parts = explode_spec(h.particles, v.ship.pos, sparks, h.sparks_used);
        if lives == 0 {
            AsteroidsView { lives, particles: parts, game_over: true, ..v1 }
        } else {
            AsteroidsView {
                lives,
                particles: parts,
                ship: Ship::new_spec(),
                respawn_timer: RESPAWN_TIME,
                ..v1
            }
        }
    }
}

/// Index of the first asteroid that a circle of radius `r` at `p` overlaps,
/// or the number of asteroids when there is none.
pub fn first_touching(p: V2, r: i64, asteroids: &Vec<Asteroid>) -> (j: usize)
    requires
        p.in_limit(),
        0 <= r <= UNIT,
        all_asteroids_wf(asteroids@),
    ensures
        j == first_touch(p, r as int, asteroids@, 0),
        j <= asteroids.len(),
{
    let mut j: usize = 0;
    while j < asteroids.len()
        invariant
            j <= asteroids.len(),
            first_touch(p, r as int, asteroids@, 0) == first_touch(p, r as int, asteroids@, j as int),
            p.in_limit(),
            0 <= r <= UNIT,
            all_asteroids_wf(asteroids@),
        decreases asteroids.len() - j,
    {
        let a = asteroids[j];
        if circles_collide(p, r, a.pos, a.size.radius()) {
            return j;
        }
        j = j + 1;
    }
    j
}

/// Bullets against asteroids, then the ship against asteroids, as
/// [`collide_phase`] states.
pub fn handle_collisions(game: &mut Asteroids, sup: &Supply)
    requires
        old(game)@.wf(),
        sup.wf(),
    ensures
        final(game)@ == collide_phase(old(game)@, sup.sparks@, sup.splits@),
        final(game)@.wf(),
{
    let ghost v = game@;
    let ghost h0 = Hits {
        asteroids: v.asteroids,
        kept: Seq::empty(),
        particles: v.particles,
        children: Seq::empty(),
        score: v.score,
        sparks_used: 0,
        splits_used: 0,
    };
    let ghost start = v.particles.len();
    let mut kept: Vec<Bullet> = Vec::new();
    let mut kids: Vec<Asteroid> = Vec::new();
    let mut sparks_used: usize = 0;
    let mut splits_used: usize = 0;
    let mut i: usize = 0;
    while i < game.bullets.len()
        invariant
            i <= game.bullets.len(),
            game.bullets@ == v.bullets,
            game.bullets.len() <= MAX_BULLETS,
            all_bullets_wf(v.bullets),
            ({
                let h = hits_over(h0, v.bullets.take(i as int), sup.sparks@, sup.splits@);
                &&& game.asteroids@ == h.asteroids
                &&& kept@ == h.kept
                &&& game.particles@ == h.particles
                &&& kids@ == h.children
                &&& game.score == h.score
                &&& sparks_used == h.sparks_used
                &&& splits_used == h.splits_used
            }),
            game.ship == v.ship,
            game.lives == v.lives,
            game.level == v.level,
            game.game_over == v.game_over,
            game.respawn_timer == v.respawn_timer,
            game.fire_timer == v.fire_timer,
            v.wf(),
            sup.wf(),
            game.asteroids.len() <= MAX_ASTEROIDS,
            all_asteroids_wf(game.asteroids@),
            all_asteroids_wf(kids@),
            kept.len() <= i,
            all_bullets_wf(kept@),
            game.particles.len() <= MAX_PARTICLES,
            all_particles_wf(game.particles@),
            sparks_used == game.particles.len() - start,
            splits_used == kids.len(),
            kids.len() <= 2 * i,
        decreases game.bullets.len() - i,
    {
        let b = game.bullets[i];
        proof {
            assert(v.bullets.take(i as int + 1).drop_last() =~= v.bullets.take(i as int));
            assert(v.bullets.take(i as int + 1).last() == b);
        }
        let j = first_touching(b.pos, 0, &game.asteroids);
        if j < game.asteroids.len() {
            let a = game.asteroids[j];
            game.score = game.score.saturating_add(a.size.points());
            let used = spawn_explosion(&mut game.particles, a.pos, &sup.sparks, sparks_used);
            sparks_used = sparks_used + used;
            if a.size.split().is_some() {
                let c1 = Asteroid::spawn_split(&a, &sup.splits[splits_used]);
                let c2 = Asteroid::spawn_split(&a, &sup.splits[splits_used + 1]);
                let ghost before = kids@;
                kids.push(c1);
                kids.push(c2);
                splits_used = splits_used + 2;
                assert(kids@ =~= before + seq![c1, c2]);
            } else {
                assert(kids@ =~= kids@ + Seq::<Asteroid>::empty());
            }
            let ghost before = game.asteroids@;
            game.asteroids.swap_remove(j);
            proof {
                assert forall|k: int| 0 <= k < game.asteroids@.len() implies (#[trigger] game.asteroids@[k]).wf() by {
                    if k == j as int {
                        assert(game.asteroids@[k] == before.last());
                    } else {
                        assert(game.asteroids@[k] == before[k]);
                    }
                }
            }
        } else {
            kept.push(b);
        }
        i = i + 1;
    }
    proof {
        assert(v.bullets.take(i as int) =~= v.bullets);
    }
    let ghost hs = game.asteroids@;
    let ghost g1 = game@;
    let ghost room = MAX_ASTEROIDS - hs.len();
    let mut k: usize = 0;
    while k < kids.len()
        invariant
            game.ship == g1.ship,
            game.bullets@ == g1.bullets,
            game.particles@ == g1.particles,
            game.score == g1.score,
            game.lives == g1.lives,
            game.level == g1.level,
            game.game_over == g1.game_over,
            game.respawn_timer == g1.respawn_timer,
            game.fire_timer == g1.fire_timer,
            k <= kids.len(),
            hs.len() <= MAX_ASTEROIDS,
            room == MAX_ASTEROIDS - hs.len(),
            game.asteroids@ == hs + kids@.take(if k <= room { k as int } else { room }),
            all_asteroids_wf(hs),
            all_asteroids_wf(kids@),
            all_asteroids_wf(game.asteroids@),
            game.asteroids.len() <= MAX_ASTEROIDS,
        decreases kids.len() - k,
    {
        if game.asteroids.len() < MAX_ASTEROIDS {
            game.asteroids.push(kids[k]);
        }
        k = k + 1;
        assert(game.asteroids@ =~= hs + kids@.take(if k <= room { k as int } else { room }));
    }
    proof {
        if kids.len() <= room {
            assert(kids@.take(kids.len() as int) =~= kids@);
        }
        assert(game.asteroids@ =~= cap_extend(hs, kids@));
    }
    game.bullets = kept;
    assert(game@.particles == hits_over(h0, v.bullets, sup.sparks@, sup.splits@).particles);
    assert(game@.bullets == hits_over(h0, v.bullets, sup.sparks@, sup.splits@).kept);
    assert(game@.asteroids == cap_extend(hits_over(h0, v.bullets, sup.sparks@, sup.splits@).asteroids, hits_over(h0, v.bullets, sup.sparks@, sup.splits@).children));
    if game.respawn_timer > 0 {
        game.respawn_timer = game.respawn_timer - RESPAWN_STEP;
        return;
    }
    let j = first_touching(game.ship.pos, SHIP_RADIUS, &game.asteroids);
    if j < game.asteroids.len() {
        game.lives = game.lives.saturating_sub(1);
        let pos = game.ship.pos;
        let _ = spawn_explosion(&mut game.particles, pos, &sup.sparks, sparks_used);
        if game.lives == 0 {
            game.game_over = true;
        } else {
            game.ship = Ship::new();
            game.respawn_timer = RESPAWN_TIME;
        }
    }
}

// ---------------------------------------------------------------------------
// Levels and the game loop.

/// Asteroids that a level starts with: three more than its number, up to
/// the ceiling.
pub open spec fn level_count(level: int) -> int {
    if 3 + level <= MAX_ASTEROIDS {
        3 + level
    } else {
        MAX_ASTEROIDS as int
    }
}

/// The asteroids of a level, placed by the first spawn draws.
pub open spec fn level_asteroids(level: int, spawns: Seq<AsteroidDraw>) -> Seq<Asteroid> {
    Seq::new(level_count(level) as nat, |i: int| Asteroid::spawn_random_spec(spawns[i]))
}

/// A cleared field starts the next level.
pub open spec fn level_phase(v: AsteroidsView, spawns: Seq<AsteroidDraw>) -> AsteroidsView {
    if v.asteroids.len() == 0 {
        let level = v.level.saturating_add(1);
        AsteroidsView { level, asteroids: level_asteroids(level as int, spawns), ..v }
    } else {
        v
    }
}

/// The ship, bullets, asteroids and particles after moving, and the shot
/// that the ship may fire.
pub open spec fn motion_phase(v: AsteroidsView, keys: Keys, facing: V2, dt: int) -> AsteroidsView {
    let ship = ship_step(v.ship, keys, facing, dt);
    let bullets = bullets_after(v.bullets, dt);
    let t = cool_spec(v.fire_timer as int, dt);
    let fires = fires_spec(keys, t, bullets.len() as int);
    AsteroidsView {
        ship,
        bullets: if fires { bullets.push(shot_spec(ship, facing)) } else { bullets },
        fire_timer: if fires { FIRE_COOLDOWN } else { t as i64 },
        asteroids: asteroids_after(v.asteroids, dt),
        particles: particles_after(v.particles, dt),
        ..v
    }
}

/// One update: nothing moves once the game is over; otherwise motion,
/// collisions, and a new level when the field is clear.
pub open spec fn update_spec(v: AsteroidsView, keys: Keys, facing: V2, dt: int, sup: Supply) -> AsteroidsView {
    if v.game_over {
        v
    } else {
        level_phase(
            collide_phase(motion_phase(v, keys, facing, dt), sup.sparks@, sup.splits@),
            sup.spawns@,
        )
    }
}

impl Asteroids {
    /// A game before its first reset: the ship in the middle, an empty
    /// field, three lives, level one.
    pub fn new() -> (r: Asteroids)
        ensures
            r.ship == Ship::new_spec(),
            r@.asteroids.len() == 0,
            r@.bullets.len() == 0,
            r@.particles.len() == 0,
            r.score == 0,
            r.lives == START_LIVES,
            r.level == 1,
            !r.game_over,
            r.respawn_timer == 0,
            r.fire_timer == 0,
            r@.wf(),
    {
        Asteroids {
            ship: Ship::new(),
            asteroids: Vec::new(),
            bullets: Vec::new(),
            particles: Vec::new(),
            score: 0,
            lives: START_LIVES,
            level: 1,
            game_over: false,
            respawn_timer: 0,
            fire_timer: 0,
        }
    }

    /// Adds the asteroids of the current level, placed by the first spawn
    /// draws.
    fn spawn_level_asteroids(&mut self, spawns: &Vec<AsteroidDraw>)
        requires
            old(self).asteroids.len() == 0,
            spawns.len() >= MAX_ASTEROIDS,
            forall|i: int| 0 <= i < spawns.len() ==> (#[trigger] spawns@[i]).wf(),
        ensures
            final(self)@ == (AsteroidsView {
                asteroids: level_asteroids(old(self).level as int, spawns@),
                ..old(self)@
            }),
            final(self).asteroids.len() <= MAX_ASTEROIDS,
            all_asteroids_wf(final(self).asteroids@),
    {
        let count: usize = if 3 + (self.level as usize) <= MAX_ASTEROIDS {
            3 + self.level as usize
        } else {
            MAX_ASTEROIDS
        };
        let mut i: usize = 0;
        while i < count
            invariant
                count == level_count(self.level as int),
                count <= MAX_ASTEROIDS,
                i <= count,
                spawns.len() >= MAX_ASTEROIDS,
                forall|k: int| 0 <= k < spawns.len() ==> (#[trigger] spawns@[k]).wf(),
                self.asteroids@ == Seq::new(i as nat, |k: int| Asteroid::spawn_random_spec(spawns@[k])),
                all_asteroids_wf(self.asteroids@),
                self.ship == old(self).ship,
                self.bullets@ == old(self).bullets@,
                self.particles@ == old(self).particles@,
                self.score == old(self).score,
                self.lives == old(self).lives,
                self.level == old(self).level,
                self.game_over == old(self).game_over,
                self.respawn_timer == old(self).respawn_timer,
                self.fire_timer == old(self).fire_timer,
            decreases count - i,
        {
            let a = Asteroid::spawn_random(&spawns[i]);
            self.asteroids.push(a);
            i = i + 1;
            assert(self.asteroids@ =~= Seq::new(i as nat, |k: int| Asteroid::spawn_random_spec(spawns@[k])));
        }
        assert(self.asteroids@ =~= level_asteroids(self.level as int, spawns@));
    }

    /// Starts a new game: the ship in the middle, no bullets or particles,
    /// score zero, three lives, level one, and the level's asteroids placed
    /// by the first spawn draws.
    pub fn reset(&mut self, sup: &Supply)
        requires
            sup.wf(),
        ensures
            final(self).ship == Ship::new_spec(),
            final(self)@.asteroids == level_asteroids(1, sup.spawns@),
            final(self)@.asteroids.len() == level_count(1),
            final(self)@.bullets.len() == 0,
            final(self)@.particles.len() == 0,
            final(self).score == 0,
            final(self).lives == START_LIVES,
            final(self).level == 1,
            !final(self).game_over,
            final(self).respawn_timer == 0,
            final(self).fire_timer == 0,
            final(self)@.wf(),
    {
        self.ship = Ship::new();
        self.asteroids = Vec::new();
        self.bullets = Vec::new();
        self.particles = Vec::new();
        self.score = 0;
        self.lives = START_LIVES;
        self.level = 1;
        self.game_over = false;
        self.respawn_timer = 0;
        self.fire_timer = 0;
        self.spawn_level_asteroids(&sup.spawns);
    }

    /// The ship's heading after this update's steering; the host turns it
    /// into the `facing` vector that [`Asteroids::update`] takes.
    pub fn steered_angle(&self, keys: &Keys, dt: i64) -> (r: i64)
        requires
            self@.wf(),
            dt_ok(dt as int),
        ensures
            r == steer_spec(self.ship.angle as int, *keys, dt as int),
    {
        steer(self.ship.angle, keys, dt)
    }

    /// Advances the game by `dt` ticks. `facing` is the unit vector of the
    /// heading that [`Asteroids::steered_angle`] gives for the same keys and
    /// step; random draws are taken from `sup` in order.
    pub fn update(&mut self, keys: &Keys, facing: V2, dt: i64, sup: &Supply)
        requires
            old(self)@.wf(),
            is_direction(facing),
            dt_ok(dt as int),
            sup.wf(),
        ensures
            final(self)@ == update_spec(old(self)@, *keys, facing, dt as int, *sup),
            final(self)@.wf(),
            in_field(final(self).ship.pos.x as int) && in_field(final(self).ship.pos.y as int),
            forall|i: int| 0 <= i < final(self).asteroids.len() ==>
                in_field((#[trigger] final(self).asteroids@[i]).pos.x as int)
                && in_field(final(self).asteroids@[i].pos.y as int),
            forall|i: int| 0 <= i < final(self).bullets.len() ==>
                in_field((#[trigger] final(self).bullets@[i]).pos.x as int)
                && in_field(final(self).bullets@[i].pos.y as int),
    {
        if self.game_over {
            return;
        }
        update_ship(&mut self.ship, keys, facing, dt);
        update_bullets(&mut self.bullets, dt);
        update_asteroids(&mut self.asteroids, dt);
        update_particles(&mut self.particles, dt);
        let ship = self.ship;
        handle_shooting(&ship, &mut self.bullets, &mut self.fire_timer, keys, facing, dt);
        handle_collisions(self, sup);
        if self.asteroids.len() == 0 {
            self.level = self.level.saturating_add(1);
            self.spawn_level_asteroids(&sup.spawns);
        }
    }
}

// ---------------------------------------------------------------------------
// Laws.

/// Every bullet has some time left, and at most `l` ticks.
pub open spec fn bullet_lives_le(s: Seq<Bullet>, l: int) -> bool {
    forall|i: int| 0 <= i < s.len() ==> 0 < (#[trigger] s[i]).lifetime <= l
}

/// Every particle has some time left, and at most `l` ticks.
pub open spec fn particle_lives_le(s: Seq<Particle>, l: int) -> bool {
    forall|i: int| 0 <= i < s.len() ==> 0 < (#[trigger] s[i]).lifetime <= l
}

pub open spec fn steps_ok(dts: Seq<int>) -> bool {
    forall|i: int| 0 <= i < dts.len() ==> dt_ok(#[trigger] dts[i])
}

/// Bullets after a run of updates with the given time steps.
pub open spec fn bullets_over(s: Seq<Bullet>, dts: Seq<int>) -> Seq<Bullet>
    decreases dts.len(),
{
    if dts.len() == 0 {
        s
    } else {
        bullets_after(bullets_over(s, dts.drop_last()), dts.last())
    }
}

/// Particles after a run of updates with the given time steps.
pub open spec fn particles_over(s: Seq<Particle>, dts: Seq<int>) -> Seq<Particle>
    decreases dts.len(),
{
    if dts.len() == 0 {
        s
    } else {
        particles_after(particles_over(s, dts.drop_last()), dts.last())
    }
}

pub open spec fn sum_of(dts: Seq<int>) -> int
    decreases dts.len(),
{
    if dts.len() == 0 {
        0
    } else {
        sum_of(dts.drop_last()) + dts.last()
    }
}

proof fn lemma_bullets_after_age(s: Seq<Bullet>, l: int, dt: int)
    requires
        bullet_lives_le(s, l),
        dt_ok(dt),
    ensures
        bullet_lives_le(bullets_after(s, dt), l - dt),
    decreases s.len(),
{
    if s.len() > 0 {
        lemma_bullets_after_age(s.drop_last(), l, dt);
        let rest = bullets_after(s.drop_last(), dt);
        let x = s.last().step_spec(dt);
        assert(s.last().lifetime == s[s.len() - 1].lifetime);
        if x.alive_spec() {
            assert forall|i: int| 0 <= i < rest.push(x).len() implies 0 < (#[trigger] rest.push(x)[i]).lifetime <= l - dt by {
                if i < rest.len() {
                    assert(rest.push(x)[i] == rest[i]);
                }
            }
        }
    }
}

proof fn lemma_particles_after_age(s: Seq<Particle>, l: int, dt: int)
    requires
        particle_lives_le(s, l),
        dt_ok(dt),
    ensures
        particle_lives_le(particles_after(s, dt), l - dt),
    decreases s.len(),
{
    if s.len() > 0 {
        lemma_particles_after_age(s.drop_last(), l, dt);
        let rest = particles_after(s.drop_last(), dt);
        let x = s.last().step_spec(dt);
        assert(s.last().lifetime == s[s.len() - 1].lifetime);
        if x.alive_spec() {
            assert forall|i: int| 0 <= i < rest.push(x).len() implies 0 < (#[trigger] rest.push(x)[i]).lifetime <= l - dt by {
                if i < rest.len() {
                    assert(rest.push(x)[i] == rest[i]);
                }
            }
        }
    }
}

proof fn lemma_bullets_over_age(s: Seq<Bullet>, l: int, dts: Seq<int>)
    requires
        bullet_lives_le(s, l),
        steps_ok(dts),
    ensures
        bullet_lives_le(bullets_over(s, dts), l - sum_of(dts)),
    decreases dts.len(),
{
    if dts.len() > 0 {
        assert(dt_ok(dts[dts.len() - 1]));
        lemma_bullets_over_age(s, l, dts.drop_last());
        lemma_bullets_after_age(bullets_over(s, dts.drop_last()), l - sum_of(dts.drop_last()), dts.last());
    }
}

proof fn lemma_particles_over_age(s: Seq<Particle>, l: int, dts: Seq<int>)
    requires
        particle_lives_le(s, l),
        steps_ok(dts),
    ensures
        particle_lives_le(particles_over(s, dts), l - sum_of(dts)),
    decreases dts.len(),
{
    if dts.len() > 0 {
        assert(dt_ok(dts[dts.len() - 1]));
        lemma_particles_over_age(s, l, dts.drop_last());
        lemma_particles_after_age(particles_over(s, dts.drop_last()), l - sum_of(dts.drop_last()), dts.last());
    }
}

/// Bullets expire: once a run of updates has lasted as long as the longest
/// remaining lifetime, none of them is left.
pub proof fn lemma_bullets_expire(s: Seq<Bullet>, dts: Seq<int>, l: int)
    requires
        bullet_lives_le(s, l),
        steps_ok(dts),
        l <= sum_of(dts),
    ensures
        bullets_over(s, dts).len() == 0,
{
    lemma_bullets_over_age(s, l, dts);
    let r = bullets_over(s, dts);
    if r.len() > 0 {
        assert(0 < r[0].lifetime <= l - sum_of(dts));
    }
}

/// Particles expire in the same way as bullets.
pub proof fn lemma_particles_expire(s: Seq<Particle>, dts: Seq<int>, l: int)
    requires
        particle_lives_le(s, l),
        steps_ok(dts),
        l <= sum_of(dts),
    ensures
        particles_over(s, dts).len() == 0,
{
    lemma_particles_over_age(s, l, dts);
    let r = particles_over(s, dts);
    if r.len() > 0 {
        assert(0 < r[0].lifetime <= l - sum_of(dts));
    }
}

proof fn lemma_kept_lives(h0: Hits, bs: Seq<Bullet>, sparks: Seq<SparkDraw>, splits: Seq<SplitDraw>, l: int)
    requires
        bullet_lives_le(h0.kept, l),
        bullet_lives_le(bs, l),
    ensures
        bullet_lives_le(hits_over(h0, bs, sparks, splits).kept, l),
    decreases bs.len(),
{
    if bs.len() > 0 {
        assert(bullet_lives_le(bs.drop_last(), l)) by {
            assert forall|i: int| 0 <= i < bs.drop_last().len() implies 0 < (#[trigger] bs.drop_last()[i]).lifetime <= l by {
                assert(bs.drop_last()[i] == bs[i]);
            }
        }
        lemma_kept_lives(h0, bs.drop_last(), sparks, splits, l);
        let h = hits_over(h0, bs.drop_last(), sparks, splits);
        let b = bs.last();
        assert(b == bs[bs.len() - 1]);
        let j = first_touch(b.pos, 0, h.asteroids, 0);
        if j >= h.asteroids.len() {
            assert forall|i: int| 0 <= i < h.kept.push(b).len() implies 0 < (#[trigger] h.kept.push(b)[i]).lifetime <= l by {
                if i < h.kept.len() {
                    assert(h.kept.push(b)[i] == h.kept[i]);
                }
            }
        }
    }
}

/// The state after a run of updates with the given time steps, the same
/// keys, facing and draws each time.
pub open spec fn asteroids_run(v: AsteroidsView, keys: Keys, facing: V2, dts: Seq<int>, sup: Supply) -> AsteroidsView
    decreases dts.len(),
{
    if dts.len() == 0 {
        v
    } else {
        update_spec(asteroids_run(v, keys, facing, dts.drop_last(), sup), keys, facing, dts.last(), sup)
    }
}

proof fn lemma_run_sink(v: AsteroidsView, keys: Keys, facing: V2, dts: Seq<int>, sup: Supply)
    ensures
        v.game_over ==> asteroids_run(v, keys, facing, dts, sup).game_over,
        asteroids_run(v, keys, facing, dts, sup).game_over || dts.len() == 0
            || !asteroids_run(v, keys, facing, dts.drop_last(), sup).game_over,
    decreases dts.len(),
{
    if dts.len() > 0 {
        lemma_run_sink(v, keys, facing, dts.drop_last(), sup);
    }
}

proof fn lemma_run_lives(v: AsteroidsView, keys: Keys, facing: V2, dts: Seq<int>, sup: Supply, l: int)
    requires
        bullet_lives_le(v.bullets, l),
        steps_ok(dts),
        !keys.space.is_down,
        !asteroids_run(v, keys, facing, dts, sup).game_over,
    ensures
        bullet_lives_le(asteroids_run(v, keys, facing, dts, sup).bullets, l - sum_of(dts)),
    decreases dts.len(),
{
    if dts.len() > 0 {
        lemma_run_sink(v, keys, facing, dts, sup);
        assert(dt_ok(dts[dts.len() - 1]));
        lemma_run_lives(v, keys, facing, dts.drop_last(), sup, l);
        let w = asteroids_run(v, keys, facing, dts.drop_last(), sup);
        let dt = dts.last();
        let l1 = l - sum_of(dts.drop_last());
        lemma_bullets_after_age(w.bullets, l1, dt);
        let m = motion_phase(w, keys, facing, dt);
        let h0 = Hits {
            asteroids: m.asteroids,
            kept: Seq::empty(),
            particles: m.particles,
            children: Seq::empty(),
            score: m.score,
            sparks_used: 0,
            splits_used: 0,
        };
        lemma_kept_lives(h0, m.bullets, sup.sparks@, sup.splits@, l1 - dt);
    }
}

/// Bullets expire over runs of whole updates too: while the ship holds its
/// fire and the game goes on, once the run has lasted as long as the longest
/// remaining lifetime, no bullet is left.
pub proof fn lemma_update_bullets_expire(
    v: AsteroidsView,
    keys: Keys,
    facing: V2,
    dts: Seq<int>,
    sup: Supply,
    l: int,
)
    requires
        bullet_lives_le(v.bullets, l),
        steps_ok(dts),
        l <= sum_of(dts),
        !keys.space.is_down,
        !asteroids_run(v, keys, facing, dts, sup).game_over,
    ensures
        asteroids_run(v, keys, facing, dts, sup).bullets.len() == 0,
{
    lemma_run_lives(v, keys, facing, dts, sup, l);
    let r = asteroids_run(v, keys, facing, dts, sup).bullets;
    if r.len() > 0 {
        assert(0 < r[0].lifetime <= l - sum_of(dts));
    }
}

/// A destroyed asteroid leaves two pieces of the next smaller size, or none
/// when it is of the smallest size.
pub proof fn lemma_split_pieces(a: Asteroid, splits: Seq<SplitDraw>, k: int)
    ensures
        a.size == AsteroidSize::Large ==> pieces_spec(a, splits, k).len() == 2
            && pieces_spec(a, splits, k)[0].size == AsteroidSize::Medium
            && pieces_spec(a, splits, k)[1].size == AsteroidSize::Medium,
        a.size == AsteroidSize::Medium ==> pieces_spec(a, splits, k).len() == 2
            && pieces_spec(a, splits, k)[0].size == AsteroidSize::Small
            && pieces_spec(a, splits, k)[1].size == AsteroidSize::Small,
        a.size == AsteroidSize::Small ==> pieces_spec(a, splits, k).len() == 0,
{
}

/// One bullet's hit removes one asteroid and adds at most two pieces.
pub proof fn lemma_hit_counts(h: Hits, b: Bullet, sparks: Seq<SparkDraw>, splits: Seq<SplitDraw>)
    ensures
        ({
            let h2 = hit_step(h, b, sparks, splits);
            let j = first_touch(b.pos, 0, h.asteroids, 0);
            if j < h.asteroids.len() {
                &&& h2.asteroids.len() == h.asteroids.len() - 1
                &&& h2.children.len() == h.children.len() + if h.asteroids[j].size == AsteroidSize::Small { 0int } else { 2int }
            } else {
                &&& h2.asteroids == h.asteroids
                &&& h2.children == h.children
            }
        }),
{
    lemma_first_touch_range(b.pos, 0, h.asteroids, 0);
}

proof fn lemma_first_touch_range(p: V2, r: int, s: Seq<Asteroid>, i: int)
    requires
        0 <= i,
    ensures
        0 <= first_touch(p, r, s, i) <= s.len(),
    decreases s.len() - i,
{
    if i < s.len() {
        lemma_first_touch_range(p, r, s, i + 1);
    }
}

proof fn lemma_hits_score(h0: Hits, bs: Seq<Bullet>, sparks: Seq<SparkDraw>, splits: Seq<SplitDraw>)
    ensures
        hits_over(h0, bs, sparks, splits).score >= h0.score,
    decreases bs.len(),
{
    if bs.len() > 0 {
        lemma_hits_score(h0, bs.drop_last(), sparks, splits);
    }
}

/// Within a game the score never falls and lives are never gained.
pub proof fn lemma_score_and_lives_monotonic(v: AsteroidsView, keys: Keys, facing: V2, dt: int, sup: Supply)
    ensures
        update_spec(v, keys, facing, dt, sup).score >= v.score,
        update_spec(v, keys, facing, dt, sup).lives <= v.lives,
{
    let m = motion_phase(v, keys, facing, dt);
    let h0 = Hits {
        asteroids: m.asteroids,
        kept: Seq::empty(),
        particles: m.particles,
        children: Seq::empty(),
        score: m.score,
        sparks_used: 0,
        splits_used: 0,
    };
    lemma_hits_score(h0, m.bullets, sup.sparks@, sup.splits@);
}

/// Pieces join the field only up to the ceiling.
pub proof fn lemma_cap_extend_len(s: Seq<Asteroid>, kids: Seq<Asteroid>)
    requires
        s.len() <= MAX_ASTEROIDS,
    ensures
        cap_extend(s, kids).len() == if s.len() + kids.len() <= MAX_ASTEROIDS {
            (s.len() + kids.len()) as int
        } else {
            MAX_ASTEROIDS as int
        },
{
}

} // verus!
