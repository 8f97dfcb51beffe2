//! Tempest: the player's blaster moves around the rim of a tube of segments
//! and shoots down it at enemies climbing up towards the rim.
//!
//! Depth runs from 0 at the rim to `DEPTH_UNIT` at the far end of the tube.
//! Its unit is fine enough that every speed moves a whole number of depth
//! units per tick, so motion is exact for any time step.

use vstd::prelude::*;
use crate::geom::dt_ok;
use crate::input::Keys;

pub mod rendering;

verus! {

/// Depth of the far end of the tube.
pub const DEPTH_UNIT: i64 = 1_200_000;
/// Segments of the tube that a game starts with.
pub const TUBE_SEGMENTS: usize = 16;
/// Most segments a tube may have.
pub const MAX_SEGMENTS: usize = 1024;
/// Shot speed down the tube, depth units per tick.
pub const SHOT_SPEED: i64 = 40;
/// A shot and an enemy in the same segment meet when their depths differ by
/// less than this.
pub const HIT_BAND: i64 = 120_000;
/// Ticks between two shots.
pub const FIRE_COOLDOWN: i64 = 9_000;
/// No new enemy appears while this many are in the tube.
pub const MAX_ENEMIES: usize = 6;
/// Ticks between enemy spawns on level zero.
pub const SPAWN_BASE: i64 = 90_000;
/// How much each level shortens the spawn interval, in ticks.
pub const SPAWN_STEP: i64 = 6_000;
/// The most that levels shorten the spawn interval.
pub const SPAWN_CUT_MAX: i64 = 60_000;
/// Depth below which an enemy that slipped past the rim stops moving.
pub const DEPTH_FLOOR: i64 = -120_000_000;
/// Lives at the start of a game.
pub const START_LIVES: u8 = 3;

/// Enemy types.
#[derive(Clone, Copy, Debug, PartialEq, Eq, Structural)]
pub enum EnemyKind {
    Flipper,
    Tanker,
    Spiker,
}

impl EnemyKind {
    pub open spec fn points_spec(self) -> u32 {
        match self {
            EnemyKind::Flipper => 150,
            EnemyKind::Tanker => 100,
            EnemyKind::Spiker => 50,
        }
    }

    pub open spec fn speed_spec(self) -> int {
        match self {
            EnemyKind::Flipper => 6,
            EnemyKind::Tanker => 4,
            EnemyKind::Spiker => 3,
        }
    }

    /// Score for destroying an enemy of this kind.
    pub fn points(self) -> (r: u32)
        ensures
            r == self.points_spec(),
    {
        match self {
            EnemyKind::Flipper => 150,
            EnemyKind::Tanker => 100,
            EnemyKind::Spiker => 50,
        }
    }

    /// Climbing speed, depth units per tick.
    pub fn speed(self) -> (r: i64)
        ensures
            r == self.speed_spec(),
    {
        match self {
            EnemyKind::Flipper => 6,
            EnemyKind::Tanker => 4,
            EnemyKind::Spiker => 3,
        }
    }
}

/// An enemy climbing up the tube.
#[derive(Clone, Copy, Debug, PartialEq, Eq, Structural)]
pub struct Enemy {
    pub segment: usize,
    pub depth: i64,
    pub kind: EnemyKind,
    pub alive: bool,
}

impl Enemy {
    /// An enemy of the given kind at the far end of a segment.
    pub fn new(segment: usize, kind: EnemyKind) -> (r: Enemy)
        ensures
            r == (Enemy { segment, depth: DEPTH_UNIT, kind, alive: true }),
    {
        Enemy { segment, depth: DEPTH_UNIT, kind, alive: true }
    }
}

/// The player's blaster on the rim.
#[derive(Clone, Copy, Debug, PartialEq, Eq, Structural)]
pub struct Blaster {
    pub segment: usize,
    /// Ticks until the blaster may fire again.
    pub fire_cooldown: i64,
}

/// A shot travelling down the tube.
#[derive(Clone, Copy, Debug, PartialEq, Eq, Structural)]
pub struct Shot {
    pub segment: usize,
    pub depth: i64,
    pub alive: bool,
}

/// Game states.
#[derive(Clone, Copy, Debug, PartialEq, Eq, Structural)]
pub enum GameState {
    Instructions,
    Playing,
    GameOver,
    LevelComplete,
}

/// The random values that place a new enemy.
#[derive(Clone, Copy, Debug, PartialEq, Eq, Structural)]
pub struct EnemyDraw {
    /// Segment, below the tube's segment count.
    pub segment: usize,
    /// Kind: 0 Flipper, 1 Tanker, anything else Spiker.
    pub kind: u32,
}

/// The whole state of a game of Tempest.
pub struct Tempest {
    /// Number of segments around the tube.
    pub segments: usize,
    pub blaster: Blaster,
    pub shots: Vec<Shot>,
    pub enemies: Vec<Enemy>,
    pub score: u32,
    pub lives: u8,
    pub level: u8,
    pub state: GameState,
    /// Ticks until the next enemy may appear.
    pub spawn_timer: i64,
    /// Ticks spent on the instruction screen, for blinking text; it stops
    /// at the end of `i64`.
    pub blink_timer: i64,
}

/// The state of a game as values.
pub struct TempestView {
    pub segments: usize,
    pub blaster: Blaster,
    pub shots: Seq<Shot>,
    pub enemies: Seq<Enemy>,
    pub score: u32,
    pub lives: u8,
    pub level: u8,
    pub state: GameState,
    pub spawn_timer: i64,
    pub blink_timer: i64,
}

impl View for Tempest {
    type V = TempestView;

    open spec fn view(&self) -> TempestView {
        TempestView {
            segments: self.segments,
            blaster: self.blaster,
            shots: self.shots@,
            enemies: self.enemies@,
            score: self.score,
            lives: self.lives,
            level: self.level,
            state: self.state,
            spawn_timer: self.spawn_timer,
            blink_timer: self.blink_timer,
        }
    }
}

pub open spec fn shot_ok(s: Shot) -> bool {
    0 <= s.depth <= DEPTH_UNIT
}

pub open spec fn enemy_ok(e: Enemy) -> bool {
    DEPTH_FLOOR <= e.depth <= DEPTH_UNIT
}

pub open spec fn shots_ok(s: Seq<Shot>) -> bool {
    forall|i: int| 0 <= i < s.len() ==> shot_ok(#[trigger] s[i])
}

pub open spec fn enemies_ok(s: Seq<Enemy>) -> bool {
    forall|i: int| 0 <= i < s.len() ==> enemy_ok(#[trigger] s[i])
}

impl TempestView {
    pub open spec fn wf(self) -> bool {
        &&& 0 < self.segments <= MAX_SEGMENTS
        &&& self.blaster.segment < self.segments
        &&& 0 <= self.blaster.fire_cooldown <= FIRE_COOLDOWN
        &&& shots_ok(self.shots)
        &&& enemies_ok(self.enemies)
        &&& self.enemies.len() <= MAX_ENEMIES
        &&& 0 <= self.spawn_timer <= SPAWN_BASE
        &&& 0 <= self.blink_timer
    }
}

impl EnemyDraw {
    pub open spec fn wf(self, segments: int) -> bool {
        self.segment < segments
    }
}

// ---------------------------------------------------------------------------
// The rules of one update, as values.

/// A countdown after `dt` ticks; it stops at zero.
pub open spec fn count_down(t: int, dt: int) -> int {
    if t > dt { t - dt } else { 0 }
}

/// The blaster after one update: Left and Right presses step it one segment
/// around the tube (wrapping), and the cooldown runs down.
pub open spec fn blaster_step(b: Blaster, keys: Keys, segments: int, dt: int) -> Blaster {
    let s1 = if keys.left.went_down { (b.segment + segments - 1) % segments } else { b.segment as int };
    let s2 = if keys.right.went_down { (s1 + 1) % segments } else { s1 };
    Blaster { segment: s2 as usize, fire_cooldown: count_down(b.fire_cooldown as int, dt) as i64 }
}

/// Whether the blaster fires: space held and the cooldown over.
pub open spec fn fires_spec(b: Blaster, keys: Keys) -> bool {
    keys.space.is_down && b.fire_cooldown <= 0
}

pub open spec fn enemy_step(e: Enemy, dt: int) -> Enemy {
    if e.alive {
        let d = e.depth - e.kind.speed_spec() * dt;
        Enemy { depth: (if d < DEPTH_FLOOR { DEPTH_FLOOR as int } else { d }) as i64, ..e }
    } else {
        e
    }
}

pub open spec fn enemies_after(s: Seq<Enemy>, dt: int) -> Seq<Enemy> {
    Seq::new(s.len(), |i: int| enemy_step(s[i], dt))
}

/// The shots after one update: each travels down the tube, and those past
/// its far end are gone.
pub open spec fn shots_after(s: Seq<Shot>, dt: int) -> Seq<Shot>
    decreases s.len(),
{
    if s.len() == 0 {
        Seq::empty()
    } else {
        let rest = shots_after(s.drop_last(), dt);
        let x = s.last();
        let d = x.depth + SHOT_SPEED * dt;
        if d > DEPTH_UNIT {
            rest
        } else {
            rest.push(Shot { depth: d as i64, ..x })
        }
    }
}

pub open spec fn abs_spec(a: int) -> int {
    if a < 0 { -a } else { a }
}

/// A shot meets a live enemy in its segment whose depth is within the band.
pub open spec fn meets(s: Shot, e: Enemy) -> bool {
    e.alive && s.segment == e.segment && abs_spec(s.depth - e.depth) < HIT_BAND
}

/// The first enemy from `i` on that a shot meets; the length when none.
pub open spec fn first_met(s: Shot, es: Seq<Enemy>, i: int) -> int
    decreases es.len() - i,
{
    if i < 0 || i >= es.len() {
        es.len() as int
    } else if meets(s, es[i]) {
        i
    } else {
        first_met(s, es, i + 1)
    }
}

/// Shots against enemies so far.
pub struct ShotHits {
    pub enemies: Seq<Enemy>,
    /// Shots that met nothing.
    pub kept: Seq<Shot>,
    pub score: u32,
}

/// One shot against the enemies: it destroys the first live enemy it meets
/// and is spent; a shot that meets nothing flies on.
pub open spec fn shot_step(h: ShotHits, s: Shot) -> ShotHits {
    let j = first_met(s, h.enemies, 0);
    if j >= h.enemies.len() {
        ShotHits { kept: h.kept.push(s), ..h }
    } else {
        ShotHits {
            enemies: h.enemies.update(j, Enemy { alive: false, ..h.enemies[j] }),
            kept: h.kept,
            score: h.score.saturating_add(h.enemies[j].kind.points_spec()),
        }
    }
}

pub open spec fn shots_over(h: ShotHits, ss: Seq<Shot>) -> ShotHits
    decreases ss.len(),
{
    if ss.len() == 0 {
        h
    } else {
        shot_step(shots_over(h, ss.drop_last()), ss.last())
    }
}

/// An enemy at or past the rim in the blaster's segment reaches the player.
pub open spec fn at_rim(e: Enemy, segment: usize) -> bool {
    e.depth <= 0 && e.segment == segment
}

/// How many of the enemies reach the player.
pub open spec fn rim_count(es: Seq<Enemy>, segment: usize) -> nat
    decreases es.len(),
{
    if es.len() == 0 {
        0
    } else {
        rim_count(es.drop_last(), segment) + if at_rim(es.last(), segment) { 1nat } else { 0nat }
    }
}

pub open spec fn live_enemies(es: Seq<Enemy>) -> Seq<Enemy>
    decreases es.len(),
{
    if es.len() == 0 {
        Seq::empty()
    } else {
        let rest = live_enemies(es.drop_last());
        if es.last().alive { rest.push(es.last()) } else { rest }
    }
}

/// Interval until the next spawn: shorter on higher levels, down to a floor.
pub open spec fn spawn_interval(level: int) -> int {
    let cut = level * SPAWN_STEP;
    SPAWN_BASE - if cut < SPAWN_CUT_MAX { cut } else { SPAWN_CUT_MAX as int }
}

pub open spec fn kind_of(k: u32) -> EnemyKind {
    if k == 0 {
        EnemyKind::Flipper
    } else if k == 1 {
        EnemyKind::Tanker
    } else {
        EnemyKind::Spiker
    }
}

/// The game after one update while playing.
pub open spec fn play_spec(v: TempestView, keys: Keys, dt: int, draw: EnemyDraw) -> TempestView {
    // the blaster moves and may fire
    let b1 = blaster_step(v.blaster, keys, v.segments as int, dt);
    let fires = fires_spec(b1, keys);
    let b2 = if fires { Blaster { fire_cooldown: FIRE_COOLDOWN, ..b1 } } else { b1 };
    let shots0 = if fires {
        v.shots.push(Shot { segment: b1.segment, depth: 0, alive: true })
    } else {
        v.shots
    };
    // enemies climb, shots fly
    let enemies1 = enemies_after(v.enemies, dt);
    let shots1 = shots_after(shots0, dt);
    // shots against enemies
    let h = shots_over(ShotHits { enemies: enemies1, kept: Seq::empty(), score: v.score }, shots1);
    // enemies reaching the player
    let c = rim_count(h.enemies, b2.segment);
    let enemies2 = Seq::new(
        h.enemies.len(),
        |i: int|
            if at_rim(h.enemies[i], b2.segment) {
                Enemy { alive: false, ..h.enemies[i] }
            } else {
                h.enemies[i]
            },
    );
    let lives = if c >= v.lives { 0 } else { v.lives - c };
    let state = if c > 0 && lives == 0 { GameState::GameOver } else { v.state };
    let enemies3 = live_enemies(enemies2);
    // spawning
    let t = count_down(v.spawn_timer as int, dt);
    let spawn = t <= 0 && enemies3.len() < MAX_ENEMIES;
    let enemies4 = if spawn {
        enemies3.push(Enemy { segment: draw.segment, depth: DEPTH_UNIT, kind: kind_of(draw.kind), alive: true })
    } else {
        enemies3
    };
    let timer = if spawn { spawn_interval(v.level as int) } else { t };
    let state2 = if enemies4.len() == 0 && timer <= 0 { GameState::LevelComplete } else { state };
    TempestView {
        blaster: b2,
        shots: h.kept,
        enemies: enemies4,
        score: h.score,
        lives: lives as u8,
        state: state2,
        spawn_timer: timer as i64,
        ..v
    }
}

/// One update: the instruction screen runs its clock and waits for a press
/// of space; the end states are sinks; otherwise play advances.
pub open spec fn update_spec(v: TempestView, keys: Keys, dt: int, draw: EnemyDraw) -> TempestView {
    if v.state == GameState::Instructions {
        TempestView {
            blink_timer: (if v.blink_timer + dt > i64::MAX { i64::MAX as int } else { v.blink_timer + dt }) as i64,
            state: if keys.space.went_down { GameState::Playing } else { GameState::Instructions },
            ..v
        }
    } else if v.state == GameState::GameOver || v.state == GameState::LevelComplete {
        v
    } else {
        play_spec(v, keys, dt, draw)
    }
}

// ---------------------------------------------------------------------------
// The update, step by step.

/// Moves the blaster on Left and Right presses, runs its cooldown down, and
/// fires a shot from the rim when space is held and the cooldown is over.
pub fn update_player(game: &mut Tempest, keys: &Keys, dt: i64)
    requires
        old(game)@.wf(),
        dt_ok(dt as int),
    ensures
        ({
            let b1 = blaster_step(old(game).blaster, *keys, old(game).segments as int, dt as int);
            if fires_spec(b1, *keys) {
                &&& final(game).blaster == (Blaster { fire_cooldown: FIRE_COOLDOWN, ..b1 })
                &&& final(game)@.shots == old(game)@.shots.push(Shot { segment: b1.segment, depth: 0, alive: true })
            } else {
                &&& final(game).blaster == b1
                &&& final(game)@.shots == old(game)@.shots
            }
        }),
        final(game)@ == (TempestView { blaster: final(game).blaster, shots: final(game)@.shots, ..old(game)@ }),
        final(game)@.wf(),
{
    let segs = game.segments;
    if keys.left.went_down {
        game.blaster.segment = (game.blaster.segment + segs - 1) % segs;
    }
    if keys.right.went_down {
        game.blaster.segment = (game.blaster.segment + 1) % segs;
    }
    game.blaster.fire_cooldown = if game.blaster.fire_cooldown > dt {
        game.blaster.fire_cooldown - dt
    } else {
        0
    };
    if keys.space.is_down && game.blaster.fire_cooldown <= 0 {
        game.blaster.fire_cooldown = FIRE_COOLDOWN;
        game.shots.push(Shot { segment: game.blaster.segment, depth: 0, alive: true });
    }
}

/// Every live enemy climbs towards the rim at its kind's speed.
pub fn update_enemies(enemies: &mut Vec<Enemy>, dt: i64)
    requires
        enemies_ok(old(enemies)@),
        dt_ok(dt as int),
    ensures
        final(enemies)@ == enemies_after(old(enemies)@, dt as int),
        enemies_ok(final(enemies)@),
{
    let mut i: usize = 0;
    while i < enemies.len()
        invariant
            i <= enemies.len(),
            enemies.len() == old(enemies).len(),
            forall|k: int| 0 <= k < i ==> #[trigger] enemies@[k] == enemy_step(old(enemies)@[k], dt as int),
            forall|k: int| i <= k < enemies.len() ==> #[trigger] enemies@[k] == old(enemies)@[k],
            enemies_ok(enemies@),
            enemies_ok(old(enemies)@),
            dt_ok(dt as int),
        decreases enemies.len() - i,
    {
        let e = enemies[i];
        if e.alive {
            let sp = e.kind.speed();
            assert(0 <= sp * dt <= 6 * crate::geom::MAX_DT) by (nonlinear_arith)
                requires 0 <= sp <= 6, dt_ok(dt as int);
            let d = e.depth - sp * dt;
            let d2 = if d < DEPTH_FLOOR { DEPTH_FLOOR } else { d };
            enemies.set(i, Enemy { depth: d2, ..e });
        }
        i = i + 1;
    }
    assert(enemies@ =~= enemies_after(old(enemies)@, dt as int));
}

/// Every shot travels down the tube; shots past its far end are removed.
pub fn update_shots(shots: &mut Vec<Shot>, dt: i64)
    requires
        shots_ok(old(shots)@),
        dt_ok(dt as int),
    ensures
        final(shots)@ == shots_after(old(shots)@, dt as int),
        shots_ok(final(shots)@),
{
    let step = SHOT_SPEED * dt;
    let mut out: Vec<Shot> = Vec::new();
    let mut i: usize = 0;
    while i < shots.len()
        invariant
            i <= shots.len(),
            shots@ == old(shots)@,
            shots_ok(shots@),
            step == SHOT_SPEED * dt,
            0 <= step <= SHOT_SPEED * crate::geom::MAX_DT,
            out@ == shots_after(shots@.take(i as int), dt as int),
            shots_ok(out@),
        decreases shots.len() - i,
    {
        let x = shots[i];
        let d = x.depth + step;
        if d <= DEPTH_UNIT {
            out.push(Shot { depth: d, ..x });
        }
        assert(shots@.take(i as int + 1).drop_last() =~= shots@.take(i as int));
        i = i + 1;
    }
    assert(shots@.take(i as int) =~= shots@);
    *shots = out;
}

fn first_meeting(s: Shot, enemies: &Vec<Enemy>) -> (j: usize)
    requires
        shot_ok(s),
        enemies_ok(enemies@),
    ensures
        j == first_met(s, enemies@, 0),
        j <= enemies.len(),
{
    let mut j: usize = 0;
    while j < enemies.len()
        invariant
            j <= enemies.len(),
            first_met(s, enemies@, 0) == first_met(s, enemies@, j as int),
            shot_ok(s),
            enemies_ok(enemies@),
        decreases enemies.len() - j,
    {
        let e = enemies[j];
        let diff = s.depth - e.depth;
        let dist = if diff < 0 { -diff } else { diff };
        if e.alive && s.segment == e.segment && dist < HIT_BAND {
            return j;
        }
        j = j + 1;
    }
    j
}

/// Shots against enemies: each shot destroys the first live enemy in its
/// segment within the depth band, scoring its points, and is spent. Then
/// every enemy at the rim in the blaster's segment costs a life and is
/// removed; losing the last life ends the game.
pub fn check_collisions(game: &mut Tempest)
    requires
        old(game)@.wf(),
    ensures
        ({
            let v = old(game)@;
            let h = shots_over(ShotHits { enemies: v.enemies, kept: Seq::empty(), score: v.score }, v.shots);
            let c = rim_count(h.enemies, v.blaster.segment);
            let enemies2 = Seq::new(
                h.enemies.len(),
                |i: int|
                    if at_rim(h.enemies[i], v.blaster.segment) {
                        Enemy { alive: false, ..h.enemies[i] }
                    } else {
                        h.enemies[i]
                    },
            );
            let lives = if c >= v.lives { 0 } else { v.lives - c };
            final(game)@ == TempestView {
                shots: h.kept,
                enemies: live_enemies(enemies2),
                score: h.score,
                lives: lives as u8,
                state: if c > 0 && lives == 0 { GameState::GameOver } else { v.state },
                ..v
            }
        }),
        final(game)@.wf(),
{
    let ghost v = game@;
    let ghost h0 = ShotHits { enemies: v.enemies, kept: Seq::empty(), score: v.score };
    let mut kept: Vec<Shot> = Vec::new();
    let mut i: usize = 0;
    while i < game.shots.len()
        invariant
            i <= game.shots.len(),
            game.shots@ == v.shots,
            shots_ok(v.shots),
            ({
                let h = shots_over(h0, v.shots.take(i as int));
                &&& game.enemies@ == h.enemies
                &&& kept@ == h.kept
                &&& game.score == h.score
            }),
            enemies_ok(game.enemies@),
            shots_ok(kept@),
            game.segments == v.segments,
            game.blaster == v.blaster,
            game.lives == v.lives,
            game.level == v.level,
            game.state == v.state,
            game.spawn_timer == v.spawn_timer,
            game.blink_timer == v.blink_timer,
        decreases game.shots.len() - i,
    {
        let s = game.shots[i];
        proof {
            assert(v.shots.take(i as int + 1).drop_last() =~= v.shots.take(i as int));
        }
        let j = first_meeting(s, &game.enemies);
        if j < game.enemies.len() {
            let e = game.enemies[j];
            game.score = game.score.saturating_add(e.kind.points());
            game.enemies.set(j, Enemy { alive: false, ..e });
        } else {
            kept.push(s);
        }
        i = i + 1;
    }
    proof {
        assert(v.shots.take(i as int) =~= v.shots);
    }
    game.shots = kept;
    // enemies at the rim
    let ghost he = game.enemies@;
    let seg = game.blaster.segment;
    let mut c: usize = 0;
    let mut k: usize = 0;
    while k < game.enemies.len()
        invariant
            k <= game.enemies.len(),
            game.enemies.len() == he.len(),
            c == rim_count(he.take(k as int), seg),
            c <= k,
            forall|m: int| 0 <= m < k ==> #[trigger] game.enemies@[m] == (if at_rim(he[m], seg) {
                Enemy { alive: false, ..he[m] }
            } else {
                he[m]
            }),
            forall|m: int| k <= m < he.len() ==> #[trigger] game.enemies@[m] == he[m],
            enemies_ok(he),
            enemies_ok(game.enemies@),
            game.lives as int == if c >= v.lives { 0 } else { v.lives - c },
            game.state == (if c > 0 && game.lives == 0 { GameState::GameOver } else { v.state }),
            seg == v.blaster.segment,
            game.segments == v.segments,
            game.blaster == v.blaster,
            game.level == v.level,
            game.spawn_timer == v.spawn_timer,
            game.blink_timer == v.blink_timer,
            game.shots@ == shots_over(h0, v.shots).kept,
            game.score == shots_over(h0, v.shots).score,
            shots_ok(game.shots@),
        decreases he.len() - k,
    {
        let e = game.enemies[k];
        proof {
            assert(he.take(k as int + 1).drop_last() =~= he.take(k as int));
        }
        if e.depth <= 0 && e.segment == seg {
            game.enemies.set(k, Enemy { alive: false, ..e });
            game.lives = game.lives.saturating_sub(1);
            if game.lives == 0 {
                game.state = GameState::GameOver;
            }
            c = c + 1;
        }
        k = k + 1;
    }
    proof {
        assert(he.take(k as int) =~= he);
    }
    let ghost e2 = game.enemies@;
    let mut out: Vec<Enemy> = Vec::new();
    let mut m: usize = 0;
    while m < game.enemies.len()
        invariant
            m <= game.enemies.len(),
            game.enemies@ == e2,
            enemies_ok(e2),
            out@ == live_enemies(e2.take(m as int)),
            enemies_ok(out@),
        decreases game.enemies.len() - m,
    {
        let e = game.enemies[m];
        if e.alive {
            out.push(e);
        }
        assert(e2.take(m as int + 1).drop_last() =~= e2.take(m as int));
        m = m + 1;
    }
    assert(e2.take(m as int) =~= e2);
    proof {
        lemma_live_len(e2);
        lemma_shots_score(h0, v.shots);
    }
    assert(e2 =~= Seq::new(
        he.len(),
        |i: int| if at_rim(he[i], seg) { Enemy { alive: false, ..he[i] } } else { he[i] },
    ));
    game.enemies = out;
}

impl Tempest {
    /// A game on a tube of sixteen segments, showing its instructions, with
    /// three lives at level one.
    pub fn new() -> (r: Tempest)
        ensures
            r@ == (TempestView {
                segments: TUBE_SEGMENTS,
                blaster: Blaster { segment: 0, fire_cooldown: 0 },
                shots: Seq::empty(),
                enemies: Seq::empty(),
                score: 0,
                lives: START_LIVES,
                level: 1,
                state: GameState::Instructions,
                spawn_timer: 0,
                blink_timer: 0,
            }),
            r@.wf(),
    {
        let r = Tempest {
            segments: TUBE_SEGMENTS,
            blaster: Blaster { segment: 0, fire_cooldown: 0 },
            shots: Vec::new(),
            enemies: Vec::new(),
            score: 0,
            lives: START_LIVES,
            level: 1,
            state: GameState::Instructions,
            spawn_timer: 0,
            blink_timer: 0,
        };
        assert(r@.shots =~= Seq::empty());
        assert(r@.enemies =~= Seq::empty());
        r
    }

    /// Starts over: the state of [`Tempest::new`].
    pub fn reset(&mut self)
        ensures
            final(self)@ == (TempestView {
                segments: TUBE_SEGMENTS,
                blaster: Blaster { segment: 0, fire_cooldown: 0 },
                shots: Seq::empty(),
                enemies: Seq::empty(),
                score: 0,
                lives: START_LIVES,
                level: 1,
                state: GameState::Instructions,
                spawn_timer: 0,
                blink_timer: 0,
            }),
            final(self)@.wf(),
    {
        *self = Tempest::new();
    }

    /// Adds an enemy placed by the draw at the far end of the tube.
    pub fn spawn_enemy(&mut self, draw: &EnemyDraw)
        ensures
            final(self)@ == (TempestView {
                enemies: old(self)@.enemies.push(
                    Enemy { segment: draw.segment, depth: DEPTH_UNIT, kind: kind_of(draw.kind), alive: true },
                ),
                ..old(self)@
            }),
    {
        let kind = if draw.kind == 0 {
            EnemyKind::Flipper
        } else if draw.kind == 1 {
            EnemyKind::Tanker
        } else {
            EnemyKind::Spiker
        };
        self.enemies.push(Enemy::new(draw.segment, kind));
    }

    /// Advances the game by `dt` ticks; a new enemy, when one appears, is
    /// placed by `draw`.
    pub fn update(&mut self, keys: &Keys, dt: i64, draw: &EnemyDraw)
        requires
            old(self)@.wf(),
            dt_ok(dt as int),
            draw.wf(old(self).segments as int),
        ensures
            final(self)@ == update_spec(old(self)@, *keys, dt as int, *draw),
            final(self)@.wf(),
    {
        if self.state == GameState::Instructions {
            self.blink_timer = if self.blink_timer > i64::MAX - dt { i64::MAX } else { self.blink_timer + dt };
            if keys.space.went_down {
                self.state = GameState::Playing;
            }
            return;
        }
        if self.state == GameState::GameOver || self.state == GameState::LevelComplete {
            return;
        }
        update_player(self, keys, dt);
        update_enemies(&mut self.enemies, dt);
        update_shots(&mut self.shots, dt);
        check_collisions(self);
        self.spawn_timer = if self.spawn_timer > dt { self.spawn_timer - dt } else { 0 };
        if self.spawn_timer <= 0 && self.enemies.len() < MAX_ENEMIES {
            self.spawn_enemy(draw);
            let cut: i64 = if (self.level as i64) * SPAWN_STEP < SPAWN_CUT_MAX {
                (self.level as i64) * SPAWN_STEP
            } else {
                SPAWN_CUT_MAX
            };
            self.spawn_timer = SPAWN_BASE - cut;
        }
        if self.enemies.len() == 0 && self.spawn_timer <= 0 {
            self.state = GameState::LevelComplete;
        }
    }
}

/// The shots after a run of updates with the given time steps.
pub open spec fn shots_run(s: Seq<Shot>, dts: Seq<int>) -> Seq<Shot>
    decreases dts.len(),
{
    if dts.len() == 0 {
        s
    } else {
        shots_after(shots_run(s, dts.drop_last()), dts.last())
    }
}

pub open spec fn depths_at_least(s: Seq<Shot>, d: int) -> bool {
    forall|i: int| 0 <= i < s.len() ==> (#[trigger] s[i]).depth >= d
}

proof fn lemma_shots_after_depth(s: Seq<Shot>, d: int, dt: int)
    requires
        depths_at_least(s, d),
        dt_ok(dt),
    ensures
        depths_at_least(shots_after(s, dt), d + SHOT_SPEED * dt),
        forall|i: int| 0 <= i < shots_after(s, dt).len() ==> (#[trigger] shots_after(s, dt)[i]).depth <= DEPTH_UNIT,
    decreases s.len(),
{
    if s.len() > 0 {
        lemma_shots_after_depth(s.drop_last(), d, dt);
        let rest = shots_after(s.drop_last(), dt);
        let x = s.last();
        assert(x.depth == s[s.len() - 1].depth);
        let nd = x.depth + SHOT_SPEED * dt;
        if nd <= DEPTH_UNIT {
            let y = Shot { depth: nd as i64, ..x };
            assert forall|i: int| 0 <= i < rest.push(y).len() implies (#[trigger] rest.push(y)[i]).depth >= d + SHOT_SPEED * dt
                && rest.push(y)[i].depth <= DEPTH_UNIT by {
                if i < rest.len() {
                    assert(rest.push(y)[i] == rest[i]);
                }
            }
        }
    }
}

proof fn lemma_shots_run_depth(s: Seq<Shot>, dts: Seq<int>)
    requires
        depths_at_least(s, 0),
        crate::asteroids::steps_ok(dts),
    ensures
        depths_at_least(shots_run(s, dts), SHOT_SPEED * crate::asteroids::sum_of(dts)),
        dts.len() > 0 ==> forall|i: int| 0 <= i < shots_run(s, dts).len() ==> (#[trigger] shots_run(s, dts)[i]).depth <= DEPTH_UNIT,
    decreases dts.len(),
{
    if dts.len() > 0 {
        assert(dt_ok(dts[dts.len() - 1]));
        lemma_shots_run_depth(s, dts.drop_last());
        lemma_shots_after_depth(
            shots_run(s, dts.drop_last()),
            SHOT_SPEED * crate::asteroids::sum_of(dts.drop_last()),
            dts.last(),
        );
        assert(SHOT_SPEED * crate::asteroids::sum_of(dts.drop_last()) + SHOT_SPEED * dts.last()
            == SHOT_SPEED * crate::asteroids::sum_of(dts)) by (nonlinear_arith)
            requires crate::asteroids::sum_of(dts) == crate::asteroids::sum_of(dts.drop_last()) + dts.last();
    }
}

/// Shots leave the tube: once a run of updates has lasted long enough for a
/// shot to fly the tube's length, none of the shots it started with is left,
/// whatever the sizes of the steps.
pub proof fn lemma_shots_expire(s: Seq<Shot>, dts: Seq<int>)
    requires
        depths_at_least(s, 0),
        crate::asteroids::steps_ok(dts),
        SHOT_SPEED * crate::asteroids::sum_of(dts) > DEPTH_UNIT,
    ensures
        shots_run(s, dts).len() == 0,
{
    if dts.len() == 0 {
        assert(crate::asteroids::sum_of(dts) == 0);
    }
    lemma_shots_run_depth(s, dts);
    let r = shots_run(s, dts);
    if r.len() > 0 {
        assert(r[0].depth >= SHOT_SPEED * crate::asteroids::sum_of(dts));
        assert(r[0].depth <= DEPTH_UNIT);
    }
}

proof fn lemma_first_met_range(s: Shot, es: Seq<Enemy>, i: int)
    requires
        0 <= i,
    ensures
        0 <= first_met(s, es, i) <= es.len(),
    decreases es.len() - i,
{
    if i < es.len() {
        lemma_first_met_range(s, es, i + 1);
    }
}

proof fn lemma_shots_score(h: ShotHits, ss: Seq<Shot>)
    ensures
        shots_over(h, ss).score >= h.score,
        shots_over(h, ss).enemies.len() == h.enemies.len(),
    decreases ss.len(),
{
    if ss.len() > 0 {
        lemma_shots_score(h, ss.drop_last());
        let h1 = shots_over(h, ss.drop_last());
        lemma_first_met_range(ss.last(), h1.enemies, 0);
    }
}

proof fn lemma_live_len(es: Seq<Enemy>)
    ensures
        live_enemies(es).len() <= es.len(),
    decreases es.len(),
{
    if es.len() > 0 {
        lemma_live_len(es.drop_last());
    }
}

/// Within a game the score never falls, lives are never gained, and the
/// tube never holds more than `MAX_ENEMIES` enemies.
pub proof fn lemma_update_monotonic(v: TempestView, keys: Keys, dt: int, draw: EnemyDraw)
    requires
        v.wf(),
    ensures
        update_spec(v, keys, dt, draw).score >= v.score,
        update_spec(v, keys, dt, draw).lives <= v.lives,
        update_spec(v, keys, dt, draw).enemies.len() <= MAX_ENEMIES,
{
    let b1 = blaster_step(v.blaster, keys, v.segments as int, dt);
    let fires = fires_spec(b1, keys);
    let shots0 = if fires {
        v.shots.push(Shot { segment: b1.segment, depth: 0, alive: true })
    } else {
        v.shots
    };
    let enemies1 = enemies_after(v.enemies, dt);
    let h0 = ShotHits { enemies: enemies1, kept: Seq::empty(), score: v.score };
    let shots1 = shots_after(shots0, dt);
    lemma_shots_score(h0, shots1);
    let h = shots_over(h0, shots1);
    let b2 = if fires { Blaster { fire_cooldown: FIRE_COOLDOWN, ..b1 } } else { b1 };
    let enemies2 = Seq::new(
        h.enemies.len(),
        |i: int|
            if at_rim(h.enemies[i], b2.segment) {
                Enemy { alive: false, ..h.enemies[i] }
            } else {
                h.enemies[i]
            },
    );
    lemma_live_len(enemies2);
}

} // verus!
