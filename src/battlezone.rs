//! Battlezone: first-person tank combat on a plain with obstacles.
//!
//! World coordinates are in the same fixed-point units as the other games
//! (`UNIT` per world unit), on the ground plane `x`/`z` with `y` up. The
//! host flies the player's projectiles and tests them against the enemies;
//! this module moves the player and the enemies, decides when the player
//! fires, applies the hits, and runs the game's states.

use vstd::prelude::*;
use crate::geom::{
    abs_int, clamp, clamp_spec, dt_ok, floor_sqrt, is_direction, isqrt, lemma_over_dt_bound,
    lemma_shrink, mul_div, over_dt, scale, scale_spec, trunc_div, wrap_angle, wrap_angle_spec,
    LIMIT, TICKS_PER_SEC, UNIT, V2,
};
use crate::input::Keys;

verus! {

/// Turning rate of the player's tank, angle units per second.
pub const TURN_SPEED: i64 = 20_000;
/// Forward speed of the player's tank; reverse is half of it.
pub const DRIVE_SPEED: i64 = 50_000;
/// Ticks between two shots.
pub const FIRE_COOLDOWN: i64 = 30_000;
/// How far the player may drive from the middle of the plain, either way.
pub const ARENA: i64 = 250_000_000;
/// Enemies close in while farther than this from the player.
pub const STANDOFF: i64 = 80_000;
/// Enemies closer than this to the player hold still.
pub const MIN_RANGE: i64 = 1_000;
/// Score for destroying an enemy.
pub const KILL_POINTS: u32 = 1_000;
/// Obstacles on a plain.
pub const OBSTACLE_COUNT: usize = 12;
/// Height of the gun barrel above the player's position.
pub const BARREL_HEIGHT: i64 = 8_000;
/// Distance ahead of the player at which a shot starts.
pub const BARREL_REACH: i64 = 10_000;
/// Lives at the start of a game.
pub const START_LIVES: u8 = 3;

/// A point or direction in the world.
#[derive(Clone, Copy, Debug, PartialEq, Eq, Structural)]
pub struct V3 {
    pub x: i64,
    pub y: i64,
    pub z: i64,
}

impl V3 {
    pub open spec fn in_arena(self) -> bool {
        abs_int(self.x as int) <= ARENA && abs_int(self.y as int) <= ARENA && abs_int(self.z as int) <= ARENA
    }
}

/// Game states.
#[derive(Clone, Copy, Debug, PartialEq, Eq, Structural)]
pub enum GameState {
    Instructions,
    Playing,
    GameOver,
}

/// Enemy types.
#[derive(Clone, Copy, Debug, PartialEq, Eq, Structural)]
pub enum EnemyKind {
    Tank,
    SuperTank,
}

impl EnemyKind {
    pub open spec fn speed_spec(self) -> int {
        match self {
            EnemyKind::Tank => 20_000,
            EnemyKind::SuperTank => 35_000,
        }
    }

    /// Driving speed, distance units per second.
    pub fn speed(self) -> (r: i64)
        ensures
            r == self.speed_spec(),
    {
        match self {
            EnemyKind::Tank => 20_000,
            EnemyKind::SuperTank => 35_000,
        }
    }
}

/// Obstacle shapes.
#[derive(Clone, Copy, Debug, PartialEq, Eq, Structural)]
pub enum ObstacleKind {
    Cube,
    Pyramid,
    Block,
}

/// An obstacle on the plain.
#[derive(Clone, Copy, Debug, PartialEq, Eq, Structural)]
pub struct Obstacle {
    pub pos: V3,
    pub kind: ObstacleKind,
}

impl Obstacle {
    pub fn new(pos: V3, kind: ObstacleKind) -> (r: Obstacle)
        ensures
            r == (Obstacle { pos, kind }),
    {
        Obstacle { pos, kind }
    }
}

/// An enemy tank.
#[derive(Clone, Copy, Debug, PartialEq, Eq, Structural)]
pub struct Enemy {
    pub pos: V3,
    pub kind: EnemyKind,
    pub alive: bool,
    /// Ticks until the enemy may fire.
    pub fire_timer: i64,
}

/// Ticks before a new enemy may fire.
pub const ENEMY_FIRE_DELAY: i64 = 120_000;

impl Enemy {
    pub fn new(pos: V3, kind: EnemyKind) -> (r: Enemy)
        ensures
            r == (Enemy { pos, kind, alive: true, fire_timer: ENEMY_FIRE_DELAY }),
    {
        Enemy { pos, kind, alive: true, fire_timer: ENEMY_FIRE_DELAY }
    }
}

/// The random values that place something on the plain: a direction on the
/// ground from the middle and a distance along it.
#[derive(Clone, Copy, Debug, PartialEq, Eq, Structural)]
pub struct PlaceDraw {
    /// Unit direction; `x` is along the world's x axis, `y` along its z axis.
    pub dir: V2,
    pub dist: i64,
    /// Shape of an obstacle: 0 cube, 1 pyramid, anything else block.
    pub kind: u32,
}

impl PlaceDraw {
    pub open spec fn wf(self) -> bool {
        is_direction(self.dir) && 0 <= self.dist <= 1_000_000
    }
}

pub open spec fn place_spec(d: PlaceDraw) -> V3 {
    let p = scale_spec(d.dir, d.dist as int);
    V3 { x: p.x, y: 0, z: p.y }
}

pub open spec fn obstacle_kind_of(k: u32) -> ObstacleKind {
    if k == 0 {
        ObstacleKind::Cube
    } else if k == 1 {
        ObstacleKind::Pyramid
    } else {
        ObstacleKind::Block
    }
}

fn place(d: &PlaceDraw) -> (r: V3)
    requires
        d.wf(),
    ensures
        r == place_spec(*d),
        r.in_arena(),
{
    let p = scale(d.dir, d.dist);
    V3 { x: p.x, y: 0, z: p.y }
}

/// Replaces the obstacles with twelve placed by the first draws.
pub fn spawn_obstacles(obstacles: &mut Vec<Obstacle>, draws: &Vec<PlaceDraw>)
    requires
        draws.len() >= OBSTACLE_COUNT,
        forall|i: int| 0 <= i < draws.len() ==> (#[trigger] draws@[i]).wf(),
    ensures
        final(obstacles)@ == Seq::new(
            OBSTACLE_COUNT as nat,
            |i: int| Obstacle { pos: place_spec(draws@[i]), kind: obstacle_kind_of(draws@[i].kind) },
        ),
{
    let mut out: Vec<Obstacle> = Vec::new();
    let mut i: usize = 0;
    while i < OBSTACLE_COUNT
        invariant
            i <= OBSTACLE_COUNT,
            draws.len() >= OBSTACLE_COUNT,
            forall|k: int| 0 <= k < draws.len() ==> (#[trigger] draws@[k]).wf(),
            out@ == Seq::new(
                i as nat,
                |k: int| Obstacle { pos: place_spec(draws@[k]), kind: obstacle_kind_of(draws@[k].kind) },
            ),
        decreases OBSTACLE_COUNT - i,
    {
        let d = draws[i];
        let kind = if d.kind == 0 {
            ObstacleKind::Cube
        } else if d.kind == 1 {
            ObstacleKind::Pyramid
        } else {
            ObstacleKind::Block
        };
        out.push(Obstacle::new(place(&d), kind));
        i = i + 1;
        assert(out@ =~= Seq::new(
            i as nat,
            |k: int| Obstacle { pos: place_spec(draws@[k]), kind: obstacle_kind_of(draws@[k].kind) },
        ));
    }
    *obstacles = out;
}

// ---------------------------------------------------------------------------
// Enemies.

pub open spec fn dist_sq3(a: V3, b: V3) -> int {
    (a.x - b.x) * (a.x - b.x) + (a.y - b.y) * (a.y - b.y) + (a.z - b.z) * (a.z - b.z)
}

/// One coordinate of an enemy's move: the share `step / dist` of the way
/// towards the player.
pub open spec fn toward(c: int, p: int, step: int, dist: int) -> int {
    c + trunc_div((p - c) * step, dist)
}

/// An enemy after one update: a live one farther than `STANDOFF` from the
/// player drives straight at it at its kind's speed; its fire timer runs
/// down.
pub open spec fn enemy_step(e: Enemy, player: V3, dt: int) -> Enemy {
    if !e.alive {
        e
    } else {
        let dist = floor_sqrt(dist_sq3(player, e.pos));
        let step = over_dt(e.kind.speed_spec(), dt);
        let pos = if dist > MIN_RANGE && dist > STANDOFF {
            V3 {
                x: toward(e.pos.x as int, player.x as int, step, dist) as i64,
                y: toward(e.pos.y as int, player.y as int, step, dist) as i64,
                z: toward(e.pos.z as int, player.z as int, step, dist) as i64,
            }
        } else {
            e.pos
        };
        Enemy { pos, fire_timer: (if e.fire_timer > dt { e.fire_timer - dt } else { 0 }) as i64, ..e }
    }
}

pub open spec fn enemies_ok(s: Seq<Enemy>) -> bool {
    forall|i: int| 0 <= i < s.len() ==> (#[trigger] s[i]).pos.in_arena() && s[i].fire_timer >= 0
}

proof fn lemma_toward(c: int, p: int, step: int, dist: int)
    requires
        0 <= step <= dist,
        dist > 0,
        abs_int(c) <= ARENA,
        abs_int(p) <= ARENA,
    ensures
        abs_int(toward(c, p, step, dist)) <= ARENA,
{
    lemma_shrink(p - c, step, dist);
    let d = trunc_div((p - c) * step, dist);
    if p - c >= 0 {
        assert((p - c) * step >= 0) by (nonlinear_arith) requires p - c >= 0, step >= 0;
    } else {
        assert((p - c) * step <= 0) by (nonlinear_arith) requires p - c < 0, step >= 0;
    }
}

fn move_toward(c: i64, p: i64, step: i64, dist: i64) -> (r: i64)
    requires
        0 <= step <= dist,
        dist > 0,
        dist <= LIMIT,
        abs_int(c as int) <= ARENA,
        abs_int(p as int) <= ARENA,
    ensures
        r == toward(c as int, p as int, step as int, dist as int),
        abs_int(r as int) <= ARENA,
{
    proof {
        lemma_toward(c as int, p as int, step as int, dist as int);
    }
    c + mul_div(p - c, step, dist)
}

/// Moves every live enemy towards the player and runs its fire timer down.
pub fn update_enemies(enemies: &mut Vec<Enemy>, player: V3, dt: i64)
    requires
        enemies_ok(old(enemies)@),
        player.in_arena(),
        dt_ok(dt as int),
    ensures
        final(enemies)@ == Seq::new(old(enemies)@.len(), |i: int| enemy_step(old(enemies)@[i], player, dt as int)),
        enemies_ok(final(enemies)@),
{
    let mut i: usize = 0;
    while i < enemies.len()
        invariant
            i <= enemies.len(),
            enemies.len() == old(enemies).len(),
            forall|k: int| 0 <= k < i ==> #[trigger] enemies@[k] == enemy_step(old(enemies)@[k], player, dt as int),
            forall|k: int| i <= k < enemies.len() ==> #[trigger] enemies@[k] == old(enemies)@[k],
            enemies_ok(enemies@),
            enemies_ok(old(enemies)@),
            player.in_arena(),
            dt_ok(dt as int),
        decreases enemies.len() - i,
    {
        let e = enemies[i];
        if e.alive {
            let dx = (player.x - e.pos.x) as i128;
            let dy = (player.y - e.pos.y) as i128;
            let dz = (player.z - e.pos.z) as i128;
            assert(0 <= dx * dx <= 4 * (ARENA as int) * ARENA) by (nonlinear_arith) requires -2 * ARENA <= dx <= 2 * ARENA;
            assert(0 <= dy * dy <= 4 * (ARENA as int) * ARENA) by (nonlinear_arith) requires -2 * ARENA <= dy <= 2 * ARENA;
            assert(0 <= dz * dz <= 4 * (ARENA as int) * ARENA) by (nonlinear_arith) requires -2 * ARENA <= dz <= 2 * ARENA;
            let sq = dx * dx + dy * dy + dz * dz;
            let dist_u = isqrt(sq as u64);
            assert(dist_u <= LIMIT) by (nonlinear_arith)
                requires dist_u * dist_u <= sq, sq <= 12 * (ARENA as int) * ARENA, dist_u >= 0;
            assert(sq == dist_sq3(player, e.pos));
            let dist = dist_u as i64;
            proof {
                lemma_over_dt_bound(e.kind.speed_spec(), dt as int);
            }
            let step = mul_div(e.kind.speed(), dt, TICKS_PER_SEC);
            let pos = if dist > MIN_RANGE && dist > STANDOFF {
                V3 {
                    x: move_toward(e.pos.x, player.x, step, dist),
                    y: move_toward(e.pos.y, player.y, step, dist),
                    z: move_toward(e.pos.z, player.z, step, dist),
                }
            } else {
                e.pos
            };
            let ft = if e.fire_timer > dt { e.fire_timer - dt } else { 0 };
            enemies.set(i, Enemy { pos, fire_timer: ft, ..e });
        }
        i = i + 1;
    }
    assert(enemies@ =~= Seq::new(old(enemies)@.len(), |k: int| enemy_step(old(enemies)@[k], player, dt as int)));
}

// ---------------------------------------------------------------------------
// The player and the game.

/// A shot that the player fires: where it starts and its unit direction on
/// the ground plane. The host flies it.
#[derive(Clone, Copy, Debug, PartialEq, Eq, Structural)]
pub struct ShotStart {
    pub pos: V3,
    pub dir: V2,
}

/// The whole state of a game of Battlezone, but for the shots in flight.
pub struct Battlezone {
    pub pos: V3,
    /// Heading, in angle units.
    pub angle: i64,
    pub score: u32,
    pub lives: u8,
    pub state: GameState,
    pub enemies: Vec<Enemy>,
    pub obstacles: Vec<Obstacle>,
    /// Ticks until the player may fire again.
    pub fire_cooldown: i64,
}

/// The heading after one update's steering.
pub open spec fn steer_spec(angle: int, keys: Keys, dt: int) -> int {
    let a1 = if keys.left.is_down { angle + over_dt(TURN_SPEED as int, dt) } else { angle };
    let a2 = if keys.right.is_down { a1 - over_dt(TURN_SPEED as int, dt) } else { a1 };
    wrap_angle_spec(a2)
}

/// One coordinate after driving: forward (Up or W) at full speed, back
/// (Down or S) at half speed, along the heading's ground direction `d`;
/// the plain ends at `ARENA`.
pub open spec fn drive_spec(c: int, d: int, keys: Keys, dt: int) -> int {
    let fwd = keys.up.is_down || keys.w.is_down;
    let back = keys.down.is_down || keys.s.is_down;
    let step = trunc_div(d * over_dt(DRIVE_SPEED as int, dt), UNIT as int);
    let c1 = if fwd { c + step } else { c };
    let c2 = if back { c1 - trunc_div(step, 2) } else { c1 };
    clamp_spec(c2, -ARENA as int, ARENA as int)
}

impl Battlezone {
    pub open spec fn wf(&self) -> bool {
        &&& self.pos.in_arena()
        &&& -crate::geom::PI_U <= self.angle <= crate::geom::PI_U
        &&& 0 <= self.fire_cooldown <= FIRE_COOLDOWN
        &&& enemies_ok(self.enemies@)
    }

    /// A game showing its instructions, the player in the middle of an
    /// empty plain.
    pub fn new() -> (r: Battlezone)
        ensures
            r.pos == (V3 { x: 0, y: 0, z: 0 }),
            r.angle == 0,
            r.score == 0,
            r.lives == START_LIVES,
            r.state == GameState::Instructions,
            r.enemies@.len() == 0,
            r.obstacles@.len() == 0,
            r.fire_cooldown == 0,
            r.wf(),
    {
        Battlezone {
            pos: V3 { x: 0, y: 0, z: 0 },
            angle: 0,
            score: 0,
            lives: START_LIVES,
            state: GameState::Instructions,
            enemies: Vec::new(),
            obstacles: Vec::new(),
            fire_cooldown: 0,
        }
    }

    /// Starts over as [`Battlezone::new`] does, on a plain with twelve
    /// obstacles placed by the first draws.
    pub fn reset(&mut self, draws: &Vec<PlaceDraw>)
        requires
            draws.len() >= OBSTACLE_COUNT,
            forall|i: int| 0 <= i < draws.len() ==> (#[trigger] draws@[i]).wf(),
        ensures
            final(self).pos == (V3 { x: 0, y: 0, z: 0 }),
            final(self).angle == 0,
            final(self).score == 0,
            final(self).lives == START_LIVES,
            final(self).state == GameState::Instructions,
            final(self).enemies@.len() == 0,
            final(self).obstacles@ == Seq::new(
                OBSTACLE_COUNT as nat,
                |i: int| Obstacle { pos: place_spec(draws@[i]), kind: obstacle_kind_of(draws@[i].kind) },
            ),
            final(self).fire_cooldown == 0,
            final(self).wf(),
    {
        *self = Battlezone::new();
        spawn_obstacles(&mut self.obstacles, draws);
    }

    /// The heading after this update's steering; the host turns it into the
    /// ground direction `heading` that [`Battlezone::update_player`] takes.
    pub fn steered_angle(&self, keys: &Keys, dt: i64) -> (r: i64)
        requires
            self.wf(),
            dt_ok(dt as int),
        ensures
            r == steer_spec(self.angle as int, *keys, dt as int),
    {
        proof {
            lemma_over_dt_bound(TURN_SPEED as int, dt as int);
        }
        let turn = mul_div(TURN_SPEED, dt, TICKS_PER_SEC);
        let a1 = if keys.left.is_down { self.angle + turn } else { self.angle };
        let a2 = if keys.right.is_down { a1 - turn } else { a1 };
        wrap_angle(a2)
    }

    /// The instruction screen waits for a press of space. While playing, the
    /// player steers and drives along `heading` (the unit ground direction of
    /// the new heading) and fires on a press of space once the cooldown is
    /// over; the shot fired, if any, is returned for the host to fly.
    pub fn update_player(&mut self, keys: &Keys, heading: V2, dt: i64) -> (shot: Option<ShotStart>)
        requires
            old(self).wf(),
            is_direction(heading),
            dt_ok(dt as int),
        ensures
            final(self).wf(),
            final(self).enemies@ == old(self).enemies@,
            final(self).obstacles@ == old(self).obstacles@,
            final(self).score == old(self).score,
            final(self).lives == old(self).lives,
            old(self).state == GameState::Instructions ==> {
                &&& shot.is_none()
                &&& final(self).pos == old(self).pos
                &&& final(self).angle == old(self).angle
                &&& final(self).fire_cooldown == old(self).fire_cooldown
                &&& final(self).state == if keys.space.went_down {
                    GameState::Playing
                } else {
                    GameState::Instructions
                }
            },
            old(self).state == GameState::GameOver ==> {
                &&& shot.is_none()
                &&& final(self).pos == old(self).pos
                &&& final(self).angle == old(self).angle
                &&& final(self).fire_cooldown == old(self).fire_cooldown
                &&& final(self).state == GameState::GameOver
            },
            old(self).state == GameState::Playing ==> {
                let pos = V3 {
                    x: drive_spec(old(self).pos.x as int, heading.x as int, *keys, dt as int) as i64,
                    y: old(self).pos.y,
                    z: drive_spec(old(self).pos.z as int, heading.y as int, *keys, dt as int) as i64,
                };
                let t = if old(self).fire_cooldown > dt { old(self).fire_cooldown - dt } else { 0 };
                let fires = keys.space.went_down && t <= 0;
                &&& final(self).state == GameState::Playing
                &&& final(self).angle == steer_spec(old(self).angle as int, *keys, dt as int)
                &&& final(self).pos == pos
                &&& final(self).fire_cooldown == if fires { FIRE_COOLDOWN as int } else { t }
                &&& shot == if fires {
                    Some(ShotStart {
                        pos: V3 {
                            x: (pos.x + scale_spec(heading, BARREL_REACH as int).x) as i64,
                            y: (pos.y + BARREL_HEIGHT) as i64,
                            z: (pos.z + scale_spec(heading, BARREL_REACH as int).y) as i64,
                        },
                        dir: heading,
                    })
                } else {
                    None
                }
            },
    {
        if self.state == GameState::Instructions {
            if keys.space.went_down {
                self.state = GameState::Playing;
            }
            return None;
        }
        if self.state != GameState::Playing {
            return None;
        }
        self.angle = self.steered_angle(keys, dt);
        let x = drive(self.pos.x, heading.x, keys, dt);
        let z = drive(self.pos.z, heading.y, keys, dt);
        self.pos = V3 { x, y: self.pos.y, z };
        let t = if self.fire_cooldown > dt { self.fire_cooldown - dt } else { 0 };
        self.fire_cooldown = t;
        if keys.space.went_down && t <= 0 {
            self.fire_cooldown = FIRE_COOLDOWN;
            let reach = scale(heading, BARREL_REACH);
            Some(ShotStart {
                pos: V3 { x: self.pos.x + reach.x, y: self.pos.y + BARREL_HEIGHT, z: self.pos.z + reach.y },
                dir: heading,
            })
        } else {
            None
        }
    }

    /// Applies the host's hit tests: `touches[s][e]` tells whether shot `s`
    /// reaches enemy `e`. Each shot, in order, destroys the first live enemy
    /// it reaches, scoring `KILL_POINTS`, and is spent; destroyed enemies are
    /// removed. Returns which shots were spent.
    pub fn check_shot_collisions(&mut self, touches: &Vec<Vec<bool>>) -> (spent: Vec<bool>)
        requires
            old(self).wf(),
            forall|s: int| 0 <= s < touches.len() ==> (#[trigger] touches@[s]).len() == old(self).enemies.len(),
        ensures
            ({
                let h = hits_over(
                    Kills { enemies: old(self).enemies@, spent: Seq::empty(), score: old(self).score },
                    touches@.map_values(|t: Vec<bool>| t@),
                );
                &&& spent@ == h.spent
                &&& final(self).enemies@ == live_enemies(h.enemies)
                &&& final(self).score == h.score
            }),
            final(self).pos == old(self).pos,
            final(self).angle == old(self).angle,
            final(self).lives == old(self).lives,
            final(self).state == old(self).state,
            final(self).fire_cooldown == old(self).fire_cooldown,
            final(self).obstacles@ == old(self).obstacles@,
            final(self).wf(),
    {
        let ghost rows = touches@.map_values(|t: Vec<bool>| t@);
        let ghost h0 = Kills { enemies: self.enemies@, spent: Seq::empty(), score: self.score };
        let mut spent: Vec<bool> = Vec::new();
        let mut s: usize = 0;
        while s < touches.len()
            invariant
                s <= touches.len(),
                rows == touches@.map_values(|t: Vec<bool>| t@),
                forall|k: int| 0 <= k < touches.len() ==> (#[trigger] touches@[k]).len() == h0.enemies.len(),
                ({
                    let h = hits_over(h0, rows.take(s as int));
                    &&& self.enemies@ == h.enemies
                    &&& spent@ == h.spent
                    &&& self.score == h.score
                }),
                self.enemies.len() == h0.enemies.len(),
                enemies_ok(self.enemies@),
                self.pos == old(self).pos,
                self.angle == old(self).angle,
                self.lives == old(self).lives,
                self.state == old(self).state,
                self.fire_cooldown == old(self).fire_cooldown,
                self.obstacles@ == old(self).obstacles@,
                self.wf(),
            decreases touches.len() - s,
        {
            let row = &touches[s];
            proof {
                assert(rows.take(s as int + 1).drop_last() =~= rows.take(s as int));
                assert(rows[s as int] == row@);
            }
            let mut e: usize = 0;
            let mut found = false;
            while e < self.enemies.len() && !found
                invariant
                    e <= self.enemies.len(),
                    row@.len() == self.enemies.len(),
                    !found ==> first_kill(row@, self.enemies@, 0) == first_kill(row@, self.enemies@, e as int),
                    found ==> e >= 1 && first_kill(row@, self.enemies@, 0) == e - 1,
                decreases self.enemies.len() - e,
            {
                if self.enemies[e].alive && row[e] {
                    found = true;
                }
                e = e + 1;
            }
            if found {
                let k = e - 1;
                let en = self.enemies[k];
                self.enemies.set(k, Enemy { alive: false, ..en });
                self.score = self.score.saturating_add(KILL_POINTS);
                spent.push(true);
            } else {
                spent.push(false);
            }
            s = s + 1;
        }
        proof {
            assert(rows.take(s as int) =~= rows);
        }
        let ghost he = self.enemies@;
        let mut out: Vec<Enemy> = Vec::new();
        let mut m: usize = 0;
        while m < self.enemies.len()
            invariant
                m <= self.enemies.len(),
                self.enemies@ == he,
                enemies_ok(he),
                out@ == live_enemies(he.take(m as int)),
                enemies_ok(out@),
            decreases self.enemies.len() - m,
        {
            let en = self.enemies[m];
            if en.alive {
                out.push(en);
            }
            assert(he.take(m as int + 1).drop_last() =~= he.take(m as int));
            m = m + 1;
        }
        assert(he.take(m as int) =~= he);
        self.enemies = out;
        spent
    }

    /// Moves the enemies towards the player; when none is left, a new tank
    /// appears where the draw places it. Does nothing unless playing.
    pub fn advance_enemies(&mut self, dt: i64, draw: &PlaceDraw)
        requires
            old(self).wf(),
            dt_ok(dt as int),
            draw.wf(),
        ensures
            old(self).state != GameState::Playing ==> final(self).enemies@ == old(self).enemies@,
            old(self).state == GameState::Playing ==> {
                let moved = Seq::new(old(self).enemies@.len(), |i: int| enemy_step(old(self).enemies@[i], old(self).pos, dt as int));
                final(self).enemies@ == if moved.len() == 0 {
                    seq![Enemy { pos: place_spec(*draw), kind: EnemyKind::Tank, alive: true, fire_timer: ENEMY_FIRE_DELAY }]
                } else {
                    moved
                }
            },
            final(self).pos == old(self).pos,
            final(self).angle == old(self).angle,
            final(self).score == old(self).score,
            final(self).lives == old(self).lives,
            final(self).state == old(self).state,
            final(self).fire_cooldown == old(self).fire_cooldown,
            final(self).obstacles@ == old(self).obstacles@,
            final(self).wf(),
    {
        if self.state != GameState::Playing {
            return;
        }
        update_enemies(&mut self.enemies, self.pos, dt);
        if self.enemies.len() == 0 {
            self.spawn_enemy(draw);
            assert(self.enemies@ =~= seq![
                Enemy { pos: place_spec(*draw), kind: EnemyKind::Tank, alive: true, fire_timer: ENEMY_FIRE_DELAY },
            ]);
        }
    }

    /// Adds a tank where the draw places it.
    pub fn spawn_enemy(&mut self, draw: &PlaceDraw)
        requires
            enemies_ok(old(self).enemies@),
            draw.wf(),
        ensures
            final(self).enemies@ == old(self).enemies@.push(
                Enemy { pos: place_spec(*draw), kind: EnemyKind::Tank, alive: true, fire_timer: ENEMY_FIRE_DELAY },
            ),
            enemies_ok(final(self).enemies@),
            final(self).pos == old(self).pos,
            final(self).angle == old(self).angle,
            final(self).score == old(self).score,
            final(self).lives == old(self).lives,
            final(self).state == old(self).state,
            final(self).fire_cooldown == old(self).fire_cooldown,
            final(self).obstacles@ == old(self).obstacles@,
    {
        let e = Enemy::new(place(draw), EnemyKind::Tank);
        self.enemies.push(e);
    }
}

fn drive(c: i64, d: i64, keys: &Keys, dt: i64) -> (r: i64)
    requires
        abs_int(c as int) <= ARENA,
        crate::geom::in_field(d as int),
        dt_ok(dt as int),
    ensures
        r == drive_spec(c as int, d as int, *keys, dt as int),
        abs_int(r as int) <= ARENA,
{
    proof {
        lemma_over_dt_bound(DRIVE_SPEED as int, dt as int);
    }
    let dist = mul_div(DRIVE_SPEED, dt, TICKS_PER_SEC);
    proof {
        crate::geom::lemma_scale_bound(d as int, dist as int);
    }
    let step = mul_div(d, dist, UNIT);
    let fwd = keys.up.is_down || keys.w.is_down;
    let back = keys.down.is_down || keys.s.is_down;
    let c1 = if fwd { c + step } else { c };
    let half = if step >= 0 { step / 2 } else { -((-step) / 2) };
    let c2 = if back { c1 - half } else { c1 };
    clamp(c2, -ARENA, ARENA)
}

/// Shots against enemies so far.
pub struct Kills {
    pub enemies: Seq<Enemy>,
    pub spent: Seq<bool>,
    pub score: u32,
}

/// The first live enemy from `i` on that a shot reaches; the length when
/// none.
pub open spec fn first_kill(row: Seq<bool>, es: Seq<Enemy>, i: int) -> int
    decreases es.len() - i,
{
    if i < 0 || i >= es.len() {
        es.len() as int
    } else if es[i].alive && row[i] {
        i
    } else {
        first_kill(row, es, i + 1)
    }
}

pub open spec fn kill_step(h: Kills, row: Seq<bool>) -> Kills {
    let j = first_kill(row, h.enemies, 0);
    if j >= h.enemies.len() {
        Kills { spent: h.spent.push(false), ..h }
    } else {
        Kills {
            enemies: h.enemies.update(j, Enemy { alive: false, ..h.enemies[j] }),
            spent: h.spent.push(true),
            score: h.score.saturating_add(KILL_POINTS),
        }
    }
}

pub open spec fn hits_over(h: Kills, rows: Seq<Seq<bool>>) -> Kills
    decreases rows.len(),
{
    if rows.len() == 0 {
        h
    } else {
        kill_step(hits_over(h, rows.drop_last()), rows.last())
    }
}

pub open spec fn live_enemies(es: Seq<Enemy>) -> Seq<Enemy>
    decreases es.len(),
{
    if es.len() == 0 {
        Seq::empty()
    } else {
        let rest = live_enemies(es.drop_last());
        if es.last().alive { rest.push(es.last()) } else { rest }
    }
}

} // verus!
