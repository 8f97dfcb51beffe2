//! Lunar Lander: steer a lander under gravity onto a landing pad, slowly
//! and upright, before the fuel runs out.

use vstd::prelude::*;
use crate::geom::{
    abs_int, clamp, clamp_spec, dt_ok, in_field, in_limit, is_direction, lemma_over_dt_bound,
    mul_div, over_dt, scale, scale_spec, trunc_div, turn, turn_spec, ANGLE_LIMIT, LIMIT,
    TICKS_PER_SEC, UNIT, V2,
};
use crate::input::Keys;

pub mod rendering;

verus! {

/// Downward acceleration, distance units per second squared.
pub const GRAVITY: i64 = 1_500;
/// Engine acceleration along the lander's axis.
pub const THRUST: i64 = 3_500;
/// Turning rate, angle units per second.
pub const ROTATION_SPEED: i64 = 25_000;
/// Fuel burnt per second of thrust, in fuel units.
pub const FUEL_BURN_RATE: i64 = 150_000;
/// A full tank, in fuel units (`UNIT` fuel units make one unit of fuel).
pub const FUEL_FULL: i64 = 1_000_000;
/// A touchdown is gentle below this speed.
pub const SAFE_VELOCITY: i64 = 2_500;
/// A touchdown is upright within this angle either way.
pub const SAFE_ANGLE: i64 = 3_000;
/// Distance from the lander's centre down to its feet.
pub const LANDER_HEIGHT: i64 = 500;
/// Horizontal limit of flight.
pub const X_LIMIT: i64 = 9_500;
/// Surface height where the terrain has no segment.
pub const DEFAULT_GROUND: i64 = -9_000;
/// Points for landing, before the fuel bonus.
pub const LANDING_POINTS: u32 = 100;
/// A lander whose position or velocity passes this magnitude has left the
/// region where the game is played, and is lost.
pub const ENVELOPE: i64 = 400_000_000;

/// The lander.
#[derive(Clone, Copy, Debug, PartialEq, Eq, Structural)]
pub struct Lander {
    pub pos: V2,
    pub vel: V2,
    /// Tilt from upright, in angle units, accumulated without wrapping;
    /// positive tilts to the right.
    pub angle: i64,
    pub fuel: i64,
    pub thrusting: bool,
}

impl Lander {
    pub open spec fn in_envelope(self) -> bool {
        &&& abs_int(self.pos.x as int) <= ENVELOPE
        &&& abs_int(self.pos.y as int) <= ENVELOPE
        &&& abs_int(self.vel.x as int) <= ENVELOPE
        &&& abs_int(self.vel.y as int) <= ENVELOPE
    }

    pub open spec fn wf(self) -> bool {
        &&& self.pos.in_limit()
        &&& self.vel.in_limit()
        &&& -ANGLE_LIMIT <= self.angle <= ANGLE_LIMIT
        &&& 0 <= self.fuel <= FUEL_FULL
    }

    pub open spec fn new_spec() -> Lander {
        Lander {
            pos: V2 { x: 0, y: 7_000 },
            vel: V2 { x: 1_000, y: 0 },
            angle: 0,
            fuel: FUEL_FULL,
            thrusting: false,
        }
    }

    /// A lander high above the middle, drifting right, upright, with a full
    /// tank.
    pub fn new() -> (r: Lander)
        ensures
            r == Lander::new_spec(),
            r.wf(),
            r.in_envelope(),
    {
        Lander { pos: V2::new(0, 7_000), vel: V2::new(1_000, 0), angle: 0, fuel: FUEL_FULL, thrusting: false }
    }

    /// Whether the tank is empty.
    pub fn is_out_of_fuel(&self) -> (r: bool)
        ensures
            r == (self.fuel <= 0),
    {
        self.fuel <= 0
    }
}

/// A flat stretch of terrain to land on.
#[derive(Clone, Copy, Debug, PartialEq, Eq, Structural)]
pub struct LandingPad {
    pub x_min: i64,
    pub x_max: i64,
    pub y: i64,
    pub multiplier: u32,
}

/// The surface, as a polyline from left to right, and its landing pads.
pub struct Terrain {
    pub points: Vec<V2>,
    pub pads: Vec<LandingPad>,
}

pub open spec fn point_ok(p: V2) -> bool {
    in_field(p.x as int) && in_field(p.y as int)
}

pub open spec fn pad_ok(p: LandingPad) -> bool {
    in_field(p.x_min as int) && in_field(p.x_max as int) && in_field(p.y as int)
}

/// Height of the segment from `q0` to `q1` above `x`, by linear
/// interpolation; a vertical segment gives the height of its first end.
pub open spec fn lerp_y(q0: V2, q1: V2, x: int) -> int {
    if q1.x == q0.x {
        q0.y as int
    } else {
        q0.y + trunc_div((x - q0.x) * (q1.y - q0.y), (q1.x - q0.x) as int)
    }
}

/// The surface height at `x`, from the first segment `i` on whose span
/// holds `x`; the default height where none does.
pub open spec fn surface_from(pts: Seq<V2>, x: int, i: int) -> int
    decreases pts.len() - i,
{
    if i < 0 || i + 1 >= pts.len() {
        DEFAULT_GROUND as int
    } else if pts[i].x <= x <= pts[i + 1].x {
        lerp_y(pts[i], pts[i + 1], x)
    } else {
        surface_from(pts, x, i + 1)
    }
}

/// The first pad from `i` on whose span holds `x`; the length when none.
pub open spec fn pad_from(pads: Seq<LandingPad>, x: int, i: int) -> int
    decreases pads.len() - i,
{
    if i < 0 || i >= pads.len() {
        pads.len() as int
    } else if pads[i].x_min <= x <= pads[i].x_max {
        i
    } else {
        pad_from(pads, x, i + 1)
    }
}

impl Terrain {
    pub open spec fn wf(&self) -> bool {
        &&& forall|i: int| 0 <= i < self.points.len() ==> point_ok(#[trigger] self.points@[i])
        &&& forall|i: int| 0 <= i < self.pads.len() ==> pad_ok(#[trigger] self.pads@[i])
    }

    /// Flat ground with no pads.
    pub fn new() -> (r: Terrain)
        ensures
            r.points@.len() == 0,
            r.pads@.len() == 0,
            r.wf(),
    {
        Terrain { points: Vec::new(), pads: Vec::new() }
    }

    /// The surface height at `x`.
    pub fn surface_y_at(&self, x: i64) -> (r: i64)
        requires
            self.wf(),
            in_limit(x as int),
        ensures
            r == surface_from(self.points@, x as int, 0),
    {
        let n = self.points.len();
        let mut i: usize = 0;
        while i < n && i + 1 < n
            invariant
                i <= n,
                n == self.points.len(),
                surface_from(self.points@, x as int, 0) == surface_from(self.points@, x as int, i as int),
                self.wf(),
                in_limit(x as int),
            decreases n - i,
        {
            let q0 = self.points[i];
            let q1 = self.points[i + 1];
            if q0.x <= x && x <= q1.x {
                if q1.x == q0.x {
                    return q0.y;
                }
                let t = mul_div(x - q0.x, q1.y - q0.y, q1.x - q0.x);
                proof {
                    lemma_lerp_bound((x - q0.x) as int, (q1.y - q0.y) as int, (q1.x - q0.x) as int);
                }
                return q0.y + t;
            }
            i = i + 1;
        }
        DEFAULT_GROUND
    }

    /// The first pad whose span holds `x`, if any.
    pub fn pad_at(&self, x: i64) -> (r: Option<LandingPad>)
        requires
            self.wf(),
        ensures
            pad_from(self.pads@, x as int, 0) < self.pads.len() ==> r == Some(
                self.pads@[pad_from(self.pads@, x as int, 0)],
            ),
            pad_from(self.pads@, x as int, 0) >= self.pads.len() ==> r.is_none(),
    {
        let mut i: usize = 0;
        while i < self.pads.len()
            invariant
                i <= self.pads.len(),
                pad_from(self.pads@, x as int, 0) == pad_from(self.pads@, x as int, i as int),
            decreases self.pads.len() - i,
        {
            let p = self.pads[i];
            if p.x_min <= x && x <= p.x_max {
                return Some(p);
            }
            i = i + 1;
        }
        None
    }
}

/// With `0 <= a <= d`, `a * b / d` lies between 0 and `b`.
proof fn lemma_lerp_bound(a: int, b: int, d: int)
    requires
        0 <= a <= d,
        d > 0,
        -2 * UNIT <= b <= 2 * UNIT,
    ensures
        abs_int(trunc_div(a * b, d)) <= 2 * UNIT,
{
    if b >= 0 {
        assert(0 <= a * b <= d * b) by (nonlinear_arith) requires 0 <= a <= d, b >= 0;
        vstd::arithmetic::div_mod::lemma_div_is_ordered(a * b, d * b, d);
        vstd::arithmetic::div_mod::lemma_div_pos_is_pos(a * b, d);
        vstd::arithmetic::div_mod::lemma_div_by_multiple(b, d);
        assert((d * b) / d == b) by (nonlinear_arith) requires (b * d) / d == b;
    } else {
        assert(0 <= -(a * b) <= d * (-b)) by (nonlinear_arith) requires 0 <= a <= d, b < 0;
        vstd::arithmetic::div_mod::lemma_div_is_ordered(-(a * b), d * (-b), d);
        vstd::arithmetic::div_mod::lemma_div_pos_is_pos(-(a * b), d);
        vstd::arithmetic::div_mod::lemma_div_by_multiple(-b, d);
        assert((d * (-b)) / d == -b) by (nonlinear_arith) requires ((-b) * d) / d == -b;
    }
}

// ---------------------------------------------------------------------------
// Flight.

/// The tilt after one update's steering: Left tilts one way, Right the
/// other; the tilt accumulates without wrapping, so a lander spun a full
/// turn is not upright.
pub open spec fn steer_spec(angle: int, keys: Keys, dt: int) -> int {
    let a1 = if keys.left.is_down { turn_spec(angle, -over_dt(ROTATION_SPEED as int, dt)) } else { angle };
    if keys.right.is_down { turn_spec(a1, over_dt(ROTATION_SPEED as int, dt)) } else { a1 }
}

fn steer(angle: i64, keys: &Keys, dt: i64) -> (r: i64)
    requires
        -ANGLE_LIMIT <= angle <= ANGLE_LIMIT,
        dt_ok(dt as int),
    ensures
        r == steer_spec(angle as int, *keys, dt as int),
        -ANGLE_LIMIT <= r <= ANGLE_LIMIT,
{
    proof {
        lemma_over_dt_bound(ROTATION_SPEED as int, dt as int);
    }
    let d = mul_div(ROTATION_SPEED, dt, TICKS_PER_SEC);
    let a1 = if keys.left.is_down { turn(angle, -d) } else { angle };
    if keys.right.is_down { turn(a1, d) } else { a1 }
}

/// The lander after one update: steer; fire the engine along `facing`
/// while Up or space is held and fuel is left, burning fuel down to empty;
/// fall under gravity; move, staying within the horizontal limits.
pub open spec fn lander_step(l: Lander, keys: Keys, facing: V2, dt: int) -> Lander {
    let angle = steer_spec(l.angle as int, keys, dt);
    let thrusting = (keys.up.is_down || keys.space.is_down) && l.fuel > 0;
    let acc = scale_spec(facing, THRUST as int);
    let vx = if thrusting { l.vel.x + over_dt(acc.x as int, dt) } else { l.vel.x as int };
    let vy0 = if thrusting { l.vel.y + over_dt(acc.y as int, dt) } else { l.vel.y as int };
    let burnt = l.fuel - over_dt(FUEL_BURN_RATE as int, dt);
    let fuel = if thrusting { if burnt < 0 { 0 } else { burnt } } else { l.fuel as int };
    let vy = vy0 - over_dt(GRAVITY as int, dt);
    Lander {
        pos: V2 {
            x: clamp_spec(l.pos.x + over_dt(vx, dt), -X_LIMIT as int, X_LIMIT as int) as i64,
            y: (l.pos.y + over_dt(vy, dt)) as i64,
        },
        vel: V2 { x: vx as i64, y: vy as i64 },
        angle: angle as i64,
        fuel: fuel as i64,
        thrusting,
    }
}

/// Steers, fires the engine, applies gravity and moves the lander for `dt`
/// ticks. `facing` is the unit vector along the lander's axis after
/// steering (the host computes it from the tilt).
pub fn update_lander(lander: &mut Lander, keys: &Keys, facing: V2, dt: i64)
    requires
        old(lander).wf(),
        old(lander).in_envelope(),
        is_direction(facing),
        dt_ok(dt as int),
    ensures
        *final(lander) == lander_step(*old(lander), *keys, facing, dt as int),
        final(lander).wf(),
{
    proof {
        lemma_over_dt_bound(ROTATION_SPEED as int, dt as int);
        lemma_over_dt_bound(FUEL_BURN_RATE as int, dt as int);
        lemma_over_dt_bound(GRAVITY as int, dt as int);
    }
    lander.angle = steer(lander.angle, keys, dt);
    let thrusting = (keys.up.is_down || keys.space.is_down) && lander.fuel > 0;
    lander.thrusting = thrusting;
    if thrusting {
        let acc = scale(facing, THRUST);
        proof {
            lemma_over_dt_bound(acc.x as int, dt as int);
            lemma_over_dt_bound(acc.y as int, dt as int);
        }
        lander.vel.x = lander.vel.x + mul_div(acc.x, dt, TICKS_PER_SEC);
        lander.vel.y = lander.vel.y + mul_div(acc.y, dt, TICKS_PER_SEC);
        let burnt = lander.fuel - mul_div(FUEL_BURN_RATE, dt, TICKS_PER_SEC);
        lander.fuel = if burnt < 0 { 0 } else { burnt };
    }
    lander.vel.y = lander.vel.y - mul_div(GRAVITY, dt, TICKS_PER_SEC);
    proof {
        lemma_over_dt_bound(lander.vel.x as int, dt as int);
        lemma_over_dt_bound(lander.vel.y as int, dt as int);
    }
    let x = lander.pos.x + mul_div(lander.vel.x, dt, TICKS_PER_SEC);
    lander.pos.x = clamp(x, -X_LIMIT, X_LIMIT);
    lander.pos.y = lander.pos.y + mul_div(lander.vel.y, dt, TICKS_PER_SEC);
}

/// Game states.
#[derive(Clone, Copy, Debug, PartialEq, Eq, Structural)]
pub enum GameState {
    Instructions,
    Playing,
    Landed,
    Crashed,
}

/// Still flying while the feet are above the ground; on the ground, landed
/// if on a pad, slower than `SAFE_VELOCITY` and tilted less than
/// `SAFE_ANGLE`, crashed otherwise.
pub open spec fn landing_spec(l: Lander, points: Seq<V2>, pads: Seq<LandingPad>) -> GameState {
    let ground = surface_from(points, l.pos.x as int, 0);
    if l.pos.y - LANDER_HEIGHT > ground {
        GameState::Playing
    } else if pad_from(pads, l.pos.x as int, 0) < pads.len()
        && l.vel.x * l.vel.x + l.vel.y * l.vel.y < SAFE_VELOCITY * SAFE_VELOCITY
        && abs_int(l.angle as int) < SAFE_ANGLE {
        GameState::Landed
    } else {
        GameState::Crashed
    }
}

/// Whether the lander is still flying, has landed or has crashed.
pub fn check_landing(lander: &Lander, terrain: &Terrain) -> (r: GameState)
    requires
        lander.wf(),
        terrain.wf(),
    ensures
        r == landing_spec(*lander, terrain.points@, terrain.pads@),
{
    let ground = terrain.surface_y_at(lander.pos.x);
    let bottom = lander.pos.y - LANDER_HEIGHT;
    if bottom > ground {
        return GameState::Playing;
    }
    let on_pad = terrain.pad_at(lander.pos.x).is_some();
    let vx = lander.vel.x as i128;
    let vy = lander.vel.y as i128;
    assert(0 <= vx * vx <= (LIMIT as int) * LIMIT) by (nonlinear_arith) requires -LIMIT <= vx <= LIMIT;
    assert(0 <= vy * vy <= (LIMIT as int) * LIMIT) by (nonlinear_arith) requires -LIMIT <= vy <= LIMIT;
    let safe_vel = vx * vx + vy * vy < (SAFE_VELOCITY as i128) * (SAFE_VELOCITY as i128);
    let a = if lander.angle < 0 { -lander.angle } else { lander.angle };
    let safe_angle = a < SAFE_ANGLE;
    if on_pad && safe_vel && safe_angle {
        GameState::Landed
    } else {
        GameState::Crashed
    }
}

pub open spec fn score_spec(l: Lander) -> u32 {
    (LANDING_POINTS + l.fuel / 1_000) as u32
}

/// Points for a landing: 100, plus ten per unit of fuel left.
pub fn calculate_score(lander: &Lander) -> (r: u32)
    requires
        lander.wf(),
    ensures
        r == score_spec(*lander),
        r == LANDING_POINTS + lander.fuel / 1_000,
{
    LANDING_POINTS + (lander.fuel / 1_000) as u32
}

// ---------------------------------------------------------------------------
// Terrain generation.

/// Most landing pads on one terrain.
pub const MAX_PADS: usize = 3;
/// Draws that one terrain may consume.
pub const TERRAIN_STEPS: usize = 26;
/// A pad is made where the chance draw falls below this.
pub const PAD_CHANCE: i64 = 2_000;
/// Pads narrower than this score triple, wider ones double.
pub const NARROW_PAD: i64 = 1_200;
/// Lowest surface height.
pub const GROUND_MIN: i64 = -9_000;
/// Highest surface height.
pub const GROUND_MAX: i64 = -3_000;

/// The random values of one step of terrain generation.
#[derive(Clone, Copy, Debug, PartialEq, Eq, Structural)]
pub struct TerrainStep {
    /// How far right the surface goes in this step, 800 to 1500.
    pub step: i64,
    /// Compared with `PAD_CHANCE`, 0 up to `UNIT`.
    pub chance: i64,
    /// Width of a pad made in this step, 1000 to 1800.
    pub pad_width: i64,
    /// Change of height when no pad is made, -1500 to 1500.
    pub dy: i64,
}

impl TerrainStep {
    pub open spec fn wf(self) -> bool {
        &&& 800 <= self.step <= 1_500
        &&& 0 <= self.chance <= UNIT
        &&& 1_000 <= self.pad_width <= 1_800
        &&& -1_500 <= self.dy <= 1_500
    }
}

/// Terrain generation so far: the surface has reached `x` at height `y`.
pub struct GenState {
    pub x: int,
    pub y: int,
    pub points: Seq<V2>,
    pub pads: Seq<LandingPad>,
}

/// One step: move right by the drawn step (not past the right edge); then
/// either lay a flat pad of the drawn width at the current height (while
/// fewer than three exist and the chance draw says so), or move the height
/// by the drawn change, kept between the lowest and highest heights.
pub open spec fn gen_step(g: GenState, d: TerrainStep) -> GenState {
    let x1 = if g.x + d.step > UNIT { UNIT as int } else { g.x + d.step };
    if d.chance < PAD_CHANCE && g.pads.len() < MAX_PADS {
        let x_end = if x1 + d.pad_width > UNIT { UNIT as int } else { x1 + d.pad_width };
        let pad = LandingPad {
            x_min: (x1 - d.step) as i64,
            x_max: x_end as i64,
            y: g.y as i64,
            multiplier: if d.pad_width < NARROW_PAD { 3 } else { 2 },
        };
        GenState {
            x: x_end,
            y: g.y,
            points: g.points.push(V2 { x: x_end as i64, y: g.y as i64 }),
            pads: g.pads.push(pad),
        }
    } else {
        let y1 = clamp_spec(g.y + d.dy, GROUND_MIN as int, GROUND_MAX as int);
        GenState { x: x1, y: y1, points: g.points.push(V2 { x: x1 as i64, y: y1 as i64 }), pads: g.pads }
    }
}

/// Steps from draw `i` on until the surface reaches the right edge.
pub open spec fn gen_run(g: GenState, steps: Seq<TerrainStep>, i: int) -> GenState
    decreases steps.len() - i,
{
    if g.x >= UNIT || i < 0 || i >= steps.len() {
        g
    } else {
        gen_run(gen_step(g, steps[i]), steps, i + 1)
    }
}

/// The terrain that a start height and the step draws give.
pub open spec fn generate_spec(start_y: int, steps: Seq<TerrainStep>) -> GenState {
    gen_run(
        GenState {
            x: -UNIT as int,
            y: start_y,
            points: seq![V2 { x: (-UNIT) as i64, y: start_y as i64 }],
            pads: Seq::empty(),
        },
        steps,
        0,
    )
}

impl Terrain {
    /// A surface from the left edge to the right edge, starting at `start_y`
    /// and shaped by the step draws, used in order.
    pub fn generate(start_y: i64, steps: &Vec<TerrainStep>) -> (r: Terrain)
        requires
            GROUND_MIN <= start_y <= GROUND_MAX,
            steps.len() >= TERRAIN_STEPS,
            forall|i: int| 0 <= i < steps.len() ==> (#[trigger] steps@[i]).wf(),
        ensures
            r.points@ == generate_spec(start_y as int, steps@).points,
            r.pads@ == generate_spec(start_y as int, steps@).pads,
            r.wf(),
    {
        let mut points: Vec<V2> = Vec::new();
        let mut pads: Vec<LandingPad> = Vec::new();
        let mut x: i64 = -UNIT;
        let mut y: i64 = start_y;
        points.push(V2::new(x, y));
        let ghost g0 = GenState { x: x as int, y: y as int, points: points@, pads: pads@ };
        assert(g0.points =~= seq![V2 { x: (-UNIT) as i64, y: start_y as i64 }]);
        let mut i: usize = 0;
        while x < UNIT
            invariant
                -UNIT <= x <= UNIT,
                GROUND_MIN <= y <= GROUND_MAX,
                x < UNIT ==> x >= -UNIT + 800 * i,
                i <= TERRAIN_STEPS,
                steps.len() >= TERRAIN_STEPS,
                forall|k: int| 0 <= k < steps.len() ==> (#[trigger] steps@[k]).wf(),
                gen_run(g0, steps@, 0) == gen_run(
                    GenState { x: x as int, y: y as int, points: points@, pads: pads@ },
                    steps@,
                    i as int,
                ),
                pads.len() <= MAX_PADS,
                forall|k: int| 0 <= k < points.len() ==> point_ok(#[trigger] points@[k]),
                forall|k: int| 0 <= k < pads.len() ==> pad_ok(#[trigger] pads@[k]),
            decreases UNIT - x,
        {
            let d = steps[i];
            let ghost g = GenState { x: x as int, y: y as int, points: points@, pads: pads@ };
            let x1 = if x + d.step > UNIT { UNIT } else { x + d.step };
            if d.chance < PAD_CHANCE && pads.len() < MAX_PADS {
                let x_end = if x1 + d.pad_width > UNIT { UNIT } else { x1 + d.pad_width };
                let pad = LandingPad {
                    x_min: x1 - d.step,
                    x_max: x_end,
                    y,
                    multiplier: if d.pad_width < NARROW_PAD { 3 } else { 2 },
                };
                pads.push(pad);
                points.push(V2::new(x_end, y));
                x = x_end;
            } else {
                let y1 = clamp(y + d.dy, GROUND_MIN, GROUND_MAX);
                points.push(V2::new(x1, y1));
                x = x1;
                y = y1;
            }
            assert(GenState { x: x as int, y: y as int, points: points@, pads: pads@ } == gen_step(g, steps@[i as int]));
            i = i + 1;
        }
        Terrain { points, pads }
    }
}

/// The whole state of a game of Lunar Lander.
pub struct LunarLander {
    pub lander: Lander,
    pub terrain: Terrain,
    pub state: GameState,
    pub score: u32,
}

impl LunarLander {
    pub open spec fn wf(&self) -> bool {
        &&& self.lander.wf()
        &&& self.terrain.wf()
        &&& (self.state == GameState::Instructions || self.state == GameState::Playing) ==> self.lander.in_envelope()
    }

    /// A game showing its instructions, with a fresh lander over flat ground.
    pub fn new() -> (r: LunarLander)
        ensures
            r.lander == Lander::new_spec(),
            r.terrain.points@.len() == 0,
            r.terrain.pads@.len() == 0,
            r.state == GameState::Instructions,
            r.score == 0,
            r.wf(),
    {
        LunarLander { lander: Lander::new(), terrain: Terrain::new(), state: GameState::Instructions, score: 0 }
    }

    /// Starts over: a fresh lander over a newly generated terrain, showing
    /// the instructions, with no score.
    pub fn reset(&mut self, start_y: i64, steps: &Vec<TerrainStep>)
        requires
            GROUND_MIN <= start_y <= GROUND_MAX,
            steps.len() >= TERRAIN_STEPS,
            forall|i: int| 0 <= i < steps.len() ==> (#[trigger] steps@[i]).wf(),
        ensures
            final(self).lander == Lander::new_spec(),
            final(self).terrain.points@ == generate_spec(start_y as int, steps@).points,
            final(self).terrain.pads@ == generate_spec(start_y as int, steps@).pads,
            final(self).state == GameState::Instructions,
            final(self).score == 0,
            final(self).wf(),
    {
        self.lander = Lander::new();
        self.terrain = Terrain::generate(start_y, steps);
        self.state = GameState::Instructions;
        self.score = 0;
    }

    /// The lander's tilt after this update's steering; the host turns it
    /// into the `facing` vector that [`LunarLander::update`] takes.
    pub fn steered_angle(&self, keys: &Keys, dt: i64) -> (r: i64)
        requires
            self.wf(),
            dt_ok(dt as int),
        ensures
            r == steer_spec(self.lander.angle as int, *keys, dt as int),
    {
        steer(self.lander.angle, keys, dt)
    }

    /// Advances the game by `dt` ticks. The instruction screen waits for a
    /// press of space; a landed or crashed lander stays as it is; in flight
    /// the lander moves and is then checked against the ground, and a
    /// landing scores. A lander that leaves the flight envelope is lost.
    pub fn update(&mut self, keys: &Keys, facing: V2, dt: i64)
        requires
            old(self).wf(),
            is_direction(facing),
            dt_ok(dt as int),
        ensures
            final(self).terrain.points@ == old(self).terrain.points@,
            final(self).terrain.pads@ == old(self).terrain.pads@,
            old(self).state == GameState::Instructions ==> {
                &&& final(self).lander == old(self).lander
                &&& final(self).score == old(self).score
                &&& final(self).state == if keys.space.went_down {
                    GameState::Playing
                } else {
                    GameState::Instructions
                }
            },
            old(self).state == GameState::Landed || old(self).state == GameState::Crashed ==> {
                &&& final(self).lander == old(self).lander
                &&& final(self).score == old(self).score
                &&& final(self).state == old(self).state
            },
            old(self).state == GameState::Playing ==> {
                let l = lander_step(old(self).lander, *keys, facing, dt as int);
                let st = landing_spec(l, old(self).terrain.points@, old(self).terrain.pads@);
                &&& final(self).lander == l
                &&& final(self).state == if st == GameState::Playing && !l.in_envelope() {
                    GameState::Crashed
                } else {
                    st
                }
                &&& final(self).score == if final(self).state == GameState::Landed {
                    score_spec(l)
                } else {
                    old(self).score
                }
            },
            final(self).wf(),
    {
        if self.state == GameState::Instructions {
            if keys.space.went_down {
                self.state = GameState::Playing;
            }
            return;
        }
        if self.state != GameState::Playing {
            return;
        }
        update_lander(&mut self.lander, keys, facing, dt);
        let mut st = check_landing(&self.lander, &self.terrain);
        if st == GameState::Playing && !self.lander_in_envelope() {
            st = GameState::Crashed;
        }
        self.state = st;
        if st == GameState::Landed {
            self.score = calculate_score(&self.lander);
        }
    }

    fn lander_in_envelope(&self) -> (r: bool)
        ensures
            r == self.lander.in_envelope(),
    {
        let l = &self.lander;
        -ENVELOPE <= l.pos.x && l.pos.x <= ENVELOPE && -ENVELOPE <= l.pos.y && l.pos.y <= ENVELOPE
            && -ENVELOPE <= l.vel.x && l.vel.x <= ENVELOPE && -ENVELOPE <= l.vel.y && l.vel.y <= ENVELOPE
    }
}

} // verus!
