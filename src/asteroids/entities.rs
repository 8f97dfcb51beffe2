//! Asteroids, bullets, explosion particles and the ship.

use vstd::prelude::*;
use crate::geom::{
    abs_int, advance_by, dt_ok, floor_sqrt, in_field, is_direction, isqrt, lemma_over_dt_bound,
    mul_div, over_dt, scale, scale_spec, turn, turn_spec, wrap_position, wrap_spec, ANGLE_LIMIT,
    PI_U, TICKS_PER_SEC, UNIT, V2,
};

verus! {

/// Size classes of asteroids.
#[derive(Clone, Copy, Debug, PartialEq, Eq, Structural)]
pub enum AsteroidSize {
    Large,
    Medium,
    Small,
}

impl AsteroidSize {
    pub open spec fn radius_spec(self) -> int {
        match self {
            AsteroidSize::Large => 1200,
            AsteroidSize::Medium => 600,
            AsteroidSize::Small => 300,
        }
    }

    pub open spec fn points_spec(self) -> u32 {
        match self {
            AsteroidSize::Large => 20,
            AsteroidSize::Medium => 50,
            AsteroidSize::Small => 100,
        }
    }

    /// The size of the pieces that an asteroid of this size breaks into.
    pub open spec fn split_spec(self) -> Option<AsteroidSize> {
        match self {
            AsteroidSize::Large => Some(AsteroidSize::Medium),
            AsteroidSize::Medium => Some(AsteroidSize::Small),
            AsteroidSize::Small => None,
        }
    }

    /// Largest velocity component that an asteroid of this size can have.
    pub open spec fn vel_cap(self) -> int {
        match self {
            AsteroidSize::Large => 4_000,
            AsteroidSize::Medium => 12_000,
            AsteroidSize::Small => 36_000,
        }
    }

    /// Collision radius, in distance units.
    pub fn radius(self) -> (r: i64)
        ensures
            r == self.radius_spec(),
    {
        match self {
            AsteroidSize::Large => 1200,
            AsteroidSize::Medium => 600,
            AsteroidSize::Small => 300,
        }
    }

    /// Score for destroying an asteroid of this size: smaller is worth more.
    pub fn points(self) -> (r: u32)
        ensures
            r == self.points_spec(),
    {
        match self {
            AsteroidSize::Large => 20,
            AsteroidSize::Medium => 50,
            AsteroidSize::Small => 100,
        }
    }

    /// The next smaller size class, or `None` for the smallest.
    pub fn split(self) -> (r: Option<AsteroidSize>)
        ensures
            r == self.split_spec(),
    {
        match self {
            AsteroidSize::Large => Some(AsteroidSize::Medium),
            AsteroidSize::Medium => Some(AsteroidSize::Small),
            AsteroidSize::Small => None,
        }
    }
}

/// The random values that place a new asteroid on the edge of the field.
#[derive(Clone, Copy, Debug, PartialEq, Eq, Structural)]
pub struct AsteroidDraw {
    /// Which edge: 0 top, 1 bottom, 2 left, anything else right.
    pub edge: u32,
    /// Position along that edge.
    pub along: i64,
    /// Direction of travel, a unit vector scaled by `UNIT`.
    pub dir: V2,
    /// Speed, distance units per second.
    pub speed: i64,
    pub rot: i64,
    pub rot_speed: i64,
    pub shape_seed: u32,
}

/// The random values that place one piece of a broken asteroid.
#[derive(Clone, Copy, Debug, PartialEq, Eq, Structural)]
pub struct SplitDraw {
    /// Direction from the parent's centre to the piece's, a unit vector.
    pub offset: V2,
    /// Direction of travel, a unit vector.
    pub dir: V2,
    pub rot: i64,
    pub rot_speed: i64,
    pub shape_seed: u32,
}

/// The random values of one explosion particle.
#[derive(Clone, Copy, Debug, PartialEq, Eq, Structural)]
pub struct SparkDraw {
    /// Direction of travel, a unit vector.
    pub dir: V2,
    /// Speed, distance units per second.
    pub speed: i64,
}

/// Largest spin rate that a draw may carry, angle units per second.
pub const MAX_SPIN: i64 = 100_000;
/// Largest speed of a new asteroid.
pub const MAX_SPAWN_SPEED: i64 = 4_000;
/// Distance between a broken asteroid's centre and its pieces.
pub const SPLIT_OFFSET: i64 = 500;

impl AsteroidDraw {
    pub open spec fn wf(self) -> bool {
        &&& in_field(self.along as int)
        &&& is_direction(self.dir)
        &&& 0 <= self.speed <= MAX_SPAWN_SPEED
        &&& -PI_U * 2 <= self.rot <= PI_U * 2
        &&& -MAX_SPIN <= self.rot_speed <= MAX_SPIN
    }
}

impl SplitDraw {
    pub open spec fn wf(self) -> bool {
        &&& is_direction(self.offset)
        &&& is_direction(self.dir)
        &&& -PI_U * 2 <= self.rot <= PI_U * 2
        &&& -MAX_SPIN <= self.rot_speed <= MAX_SPIN
    }
}

impl SparkDraw {
    pub open spec fn wf(self) -> bool {
        &&& is_direction(self.dir)
        &&& 0 <= self.speed <= UNIT
    }
}

/// An asteroid floating in space.
#[derive(Clone, Copy, Debug, PartialEq, Eq, Structural)]
pub struct Asteroid {
    pub pos: V2,
    pub vel: V2,
    pub size: AsteroidSize,
    /// Spin angle, accumulated without wrapping.
    pub rot: i64,
    pub rot_speed: i64,
    pub shape_seed: u32,
}

pub open spec fn edge_pos(edge: u32, along: i64) -> V2 {
    if edge == 0 {
        V2 { x: along, y: UNIT }
    } else if edge == 1 {
        V2 { x: along, y: (-UNIT) as i64 }
    } else if edge == 2 {
        V2 { x: (-UNIT) as i64, y: along }
    } else {
        V2 { x: UNIT, y: along }
    }
}

/// The speed of a broken asteroid's pieces: 1.2 times the parent's.
pub open spec fn split_speed(len: int) -> int {
    len * 12 / 10
}

impl Asteroid {
    pub open spec fn wf(self) -> bool {
        &&& in_field(self.pos.x as int)
        &&& in_field(self.pos.y as int)
        &&& abs_int(self.vel.x as int) <= self.size.vel_cap()
        &&& abs_int(self.vel.y as int) <= self.size.vel_cap()
        &&& -ANGLE_LIMIT <= self.rot <= ANGLE_LIMIT
        &&& -MAX_SPIN <= self.rot_speed <= MAX_SPIN
    }

    pub open spec fn spawn_random_spec(d: AsteroidDraw) -> Asteroid {
        Asteroid {
            pos: edge_pos(d.edge, d.along),
            vel: scale_spec(d.dir, d.speed as int),
            size: AsteroidSize::Large,
            rot: d.rot,
            rot_speed: d.rot_speed,
            shape_seed: d.shape_seed,
        }
    }

    /// A large asteroid on the edge that the draw names, moving in the
    /// drawn direction at the drawn speed.
    pub fn spawn_random(d: &AsteroidDraw) -> (r: Asteroid)
        requires
            d.wf(),
        ensures
            r == Asteroid::spawn_random_spec(*d),
            r.wf(),
    {
        let pos = if d.edge == 0 {
            V2::new(d.along, UNIT)
        } else if d.edge == 1 {
            V2::new(d.along, -UNIT)
        } else if d.edge == 2 {
            V2::new(-UNIT, d.along)
        } else {
            V2::new(UNIT, d.along)
        };
        Asteroid {
            pos,
            vel: scale(d.dir, d.speed),
            size: AsteroidSize::Large,
            rot: d.rot,
            rot_speed: d.rot_speed,
            shape_seed: d.shape_seed,
        }
    }

    pub open spec fn spawn_split_spec(parent: Asteroid, d: SplitDraw) -> Asteroid {
        let off = scale_spec(d.offset, SPLIT_OFFSET as int);
        Asteroid {
            pos: V2 {
                x: wrap_spec(parent.pos.x + off.x) as i64,
                y: wrap_spec(parent.pos.y + off.y) as i64,
            },
            vel: scale_spec(d.dir, split_speed(floor_sqrt(dist_sq0(parent.vel)))),
            size: match parent.size.split_spec() {
                Some(s) => s,
                None => AsteroidSize::Small,
            },
            rot: d.rot,
            rot_speed: d.rot_speed,
            shape_seed: d.shape_seed,
        }
    }

    /// A piece of `parent`: next to it (wrapping around the field), one size
    /// smaller (the smallest size
    /// stays the smallest), moving in the drawn direction at 1.2 times the
    /// parent's speed.
    pub fn spawn_split(parent: &Asteroid, d: &SplitDraw) -> (r: Asteroid)
        requires
            parent.wf(),
            d.wf(),
        ensures
            r == Asteroid::spawn_split_spec(*parent, *d),
            parent.size != AsteroidSize::Small ==> r.wf(),
    {
        let off = scale(d.offset, SPLIT_OFFSET);
        let vx = parent.vel.x as i128;
        let vy = parent.vel.y as i128;
        let ghost cap = parent.size.vel_cap();
        assert(0 < cap <= 36_000);
        assert(vx * vx <= cap * cap) by (nonlinear_arith) requires abs_int(vx as int) <= cap;
        assert(vy * vy <= cap * cap) by (nonlinear_arith) requires abs_int(vy as int) <= cap;
        assert(0 <= vx * vx <= 1_296_000_000) by (nonlinear_arith) requires -36_000 <= vx <= 36_000;
        assert(0 <= vy * vy <= 1_296_000_000) by (nonlinear_arith) requires -36_000 <= vy <= 36_000;
        let sq: u64 = (vx * vx + vy * vy) as u64;
        let len = isqrt(sq);
        assert(len <= 2 * cap) by (nonlinear_arith)
            requires len * len <= sq, sq <= 2 * cap * cap, cap > 0;
        assert(sq == dist_sq0(parent.vel));
        let speed: i64 = (len as i64) * 12 / 10;
        let vel = scale(d.dir, speed);
        let size = match parent.size.split() {
            Some(s) => s,
            None => AsteroidSize::Small,
        };
        assert(parent.size != AsteroidSize::Small ==> speed <= size.vel_cap());
        Asteroid {
            pos: wrap_position(V2::new(parent.pos.x + off.x, parent.pos.y + off.y)),
            vel,
            size,
            rot: d.rot,
            rot_speed: d.rot_speed,
            shape_seed: d.shape_seed,
        }
    }

    pub open spec fn step_spec(self, dt: int) -> Asteroid {
        Asteroid {
            pos: V2 {
                x: wrap_spec(self.pos.x + over_dt(self.vel.x as int, dt)) as i64,
                y: wrap_spec(self.pos.y + over_dt(self.vel.y as int, dt)) as i64,
            },
            rot: turn_spec(self.rot as int, over_dt(self.rot_speed as int, dt)) as i64,
            ..self
        }
    }

    /// Drifts and spins for `dt` ticks; the position wraps around the field.
    pub fn update(&mut self, dt: i64)
        requires
            old(self).wf(),
            dt_ok(dt as int),
        ensures
            *final(self) == old(self).step_spec(dt as int),
            final(self).pos.x == wrap_spec(old(self).pos.x + over_dt(old(self).vel.x as int, dt as int)),
            final(self).pos.y == wrap_spec(old(self).pos.y + over_dt(old(self).vel.y as int, dt as int)),
            final(self).rot == turn_spec(old(self).rot as int, over_dt(old(self).rot_speed as int, dt as int)),
            final(self).vel == old(self).vel,
            final(self).size == old(self).size,
            final(self).rot_speed == old(self).rot_speed,
            final(self).shape_seed == old(self).shape_seed,
            in_field(final(self).pos.x as int),
            in_field(final(self).pos.y as int),
            final(self).wf(),
    {
        proof {
            lemma_over_dt_bound(self.vel.x as int, dt as int);
            lemma_over_dt_bound(self.vel.y as int, dt as int);
            lemma_over_dt_bound(self.rot_speed as int, dt as int);
        }
        let moved = advance_by(self.pos, self.vel, dt);
        self.pos = wrap_position(moved);
        self.rot = turn(self.rot, mul_div(self.rot_speed, dt, TICKS_PER_SEC));
    }
}

pub open spec fn dist_sq0(v: V2) -> int {
    v.x * v.x + v.y * v.y
}

/// Speed of a bullet, distance units per second.
pub const BULLET_SPEED: i64 = 15_000;
/// How long a bullet flies, in ticks.
pub const BULLET_LIFETIME: i64 = 72_000;
/// How long an explosion particle lasts, in ticks.
pub const PARTICLE_LIFETIME: i64 = 36_000;

/// A bullet fired by the ship.
#[derive(Clone, Copy, Debug, PartialEq, Eq, Structural)]
pub struct Bullet {
    pub pos: V2,
    pub vel: V2,
    /// Ticks left before the bullet disappears.
    pub lifetime: i64,
}

impl Bullet {
    pub open spec fn wf(self) -> bool {
        &&& in_field(self.pos.x as int)
        &&& in_field(self.pos.y as int)
        &&& abs_int(self.vel.x as int) <= BULLET_SPEED
        &&& abs_int(self.vel.y as int) <= BULLET_SPEED
        &&& 0 < self.lifetime <= BULLET_LIFETIME
    }

    pub open spec fn alive_spec(self) -> bool {
        self.lifetime > 0
    }

    pub open spec fn step_spec(self, dt: int) -> Bullet {
        Bullet {
            pos: V2 {
                x: wrap_spec(self.pos.x + over_dt(self.vel.x as int, dt)) as i64,
                y: wrap_spec(self.pos.y + over_dt(self.vel.y as int, dt)) as i64,
            },
            vel: self.vel,
            lifetime: (self.lifetime - dt) as i64,
        }
    }

    /// A bullet at `pos` flying along the unit direction `direction`, with
    /// its full lifetime.
    pub fn new(pos: V2, direction: V2) -> (r: Bullet)
        requires
            is_direction(direction),
        ensures
            r.pos == pos,
            r.vel == scale_spec(direction, BULLET_SPEED as int),
            r.lifetime == BULLET_LIFETIME,
            in_field(pos.x as int) && in_field(pos.y as int) ==> r.wf(),
    {
        Bullet { pos, vel: scale(direction, BULLET_SPEED), lifetime: BULLET_LIFETIME }
    }

    /// Flies for `dt` ticks, wrapping around the field, and ages by `dt`.
    pub fn update(&mut self, dt: i64)
        requires
            old(self).wf(),
            dt_ok(dt as int),
        ensures
            *final(self) == old(self).step_spec(dt as int),
            in_field(final(self).pos.x as int),
            in_field(final(self).pos.y as int),
            final(self).alive_spec() ==> final(self).wf(),
    {
        proof {
            lemma_over_dt_bound(self.vel.x as int, dt as int);
            lemma_over_dt_bound(self.vel.y as int, dt as int);
        }
        self.pos = wrap_position(advance_by(self.pos, self.vel, dt));
        self.lifetime = self.lifetime - dt;
    }

    /// Whether the bullet still has time left.
    pub fn is_alive(&self) -> (r: bool)
        ensures
            r == self.alive_spec(),
    {
        self.lifetime > 0
    }
}

/// A particle of an explosion.
#[derive(Clone, Copy, Debug, PartialEq, Eq, Structural)]
pub struct Particle {
    pub pos: V2,
    pub vel: V2,
    /// Ticks left before the particle fades out.
    pub lifetime: i64,
}

/// How far a particle may have drifted from the field: it starts inside and
/// moves at most `UNIT` per second for as long as it has lived.
pub open spec fn drift_ok(a: int, lifetime: int) -> bool {
    abs_int(a) * TICKS_PER_SEC <= UNIT * TICKS_PER_SEC + UNIT * (PARTICLE_LIFETIME - lifetime)
}

impl Particle {
    pub open spec fn wf(self) -> bool {
        &&& abs_int(self.vel.x as int) <= UNIT
        &&& abs_int(self.vel.y as int) <= UNIT
        &&& 0 < self.lifetime <= PARTICLE_LIFETIME
        &&& drift_ok(self.pos.x as int, self.lifetime as int)
        &&& drift_ok(self.pos.y as int, self.lifetime as int)
    }

    pub open spec fn alive_spec(self) -> bool {
        self.lifetime > 0
    }

    pub open spec fn step_spec(self, dt: int) -> Particle {
        Particle {
            pos: V2 {
                x: (self.pos.x + over_dt(self.vel.x as int, dt)) as i64,
                y: (self.pos.y + over_dt(self.vel.y as int, dt)) as i64,
            },
            vel: self.vel,
            lifetime: (self.lifetime - dt) as i64,
        }
    }

    /// A particle at `pos` moving at `vel`, with its full lifetime.
    pub fn new(pos: V2, vel: V2) -> (r: Particle)
        ensures
            r == (Particle { pos, vel, lifetime: PARTICLE_LIFETIME }),
            in_field(pos.x as int) && in_field(pos.y as int) && abs_int(vel.x as int) <= UNIT
                && abs_int(vel.y as int) <= UNIT ==> r.wf(),
    {
        Particle { pos, vel, lifetime: PARTICLE_LIFETIME }
    }

    /// Drifts for `dt` ticks (no wrap-around) and ages by `dt`.
    pub fn update(&mut self, dt: i64)
        requires
            old(self).wf(),
            dt_ok(dt as int),
        ensures
            *final(self) == old(self).step_spec(dt as int),
            final(self).alive_spec() ==> final(self).wf(),
    {
        proof {
            lemma_over_dt_bound(self.vel.x as int, dt as int);
            lemma_over_dt_bound(self.vel.y as int, dt as int);
            assert(abs_int(self.pos.x as int) <= 2 * UNIT) by (nonlinear_arith)
                requires drift_ok(self.pos.x as int, self.lifetime as int), 0 < self.lifetime;
            assert(abs_int(self.pos.y as int) <= 2 * UNIT) by (nonlinear_arith)
                requires drift_ok(self.pos.y as int, self.lifetime as int), 0 < self.lifetime;
            assert(abs_int(self.vel.x as int) * dt <= UNIT * dt) by (nonlinear_arith)
                requires abs_int(self.vel.x as int) <= UNIT, dt >= 0;
            assert(abs_int(self.vel.y as int) * dt <= UNIT * dt) by (nonlinear_arith)
                requires abs_int(self.vel.y as int) <= UNIT, dt >= 0;
        }
        self.pos = advance_by(self.pos, self.vel, dt);
        self.lifetime = self.lifetime - dt;
    }

    /// Whether the particle still has time left.
    pub fn is_alive(&self) -> (r: bool)
        ensures
            r == self.alive_spec(),
    {
        self.lifetime > 0
    }
}

/// The player's ship.
#[derive(Clone, Copy, Debug, PartialEq, Eq, Structural)]
pub struct Ship {
    pub pos: V2,
    pub vel: V2,
    /// Heading, in angle units, accumulated without wrapping; 0 points
    /// along +x.
    pub angle: i64,
    pub thrusting: bool,
}

/// Largest velocity component the ship can reach.
pub const SHIP_VEL_CAP: i64 = 16_000;

impl Ship {
    pub open spec fn wf(self) -> bool {
        &&& in_field(self.pos.x as int)
        &&& in_field(self.pos.y as int)
        &&& abs_int(self.vel.x as int) <= SHIP_VEL_CAP
        &&& abs_int(self.vel.y as int) <= SHIP_VEL_CAP
        &&& -ANGLE_LIMIT <= self.angle <= ANGLE_LIMIT
    }

    pub open spec fn new_spec() -> Ship {
        Ship { pos: V2 { x: 0, y: 0 }, vel: V2 { x: 0, y: 0 }, angle: 0, thrusting: false }
    }

    /// A ship at rest in the middle of the field, facing +x.
    pub fn new() -> (r: Ship)
        ensures
            r == Ship::new_spec(),
            r.wf(),
    {
        Ship { pos: V2::zero(), vel: V2::zero(), angle: 0, thrusting: false }
    }
}

} // verus!
