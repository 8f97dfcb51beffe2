//! The tube and what a Tempest frame looks like, as draw commands. The rim
//! points come from the host (a circle needs sine and cosine); everything
//! placed along the tube is computed here.

use vstd::prelude::*;
use crate::draw::{
    concat, decimal, decimal_spec, emit, padded_decimal, text_of, views, zero_pad, DrawCmd,
    DrawView, Rgba, Stroke,
};
use crate::geom::{abs_int, floor_sqrt, in_field, isqrt, lemma_ratio_bound, mul_div, trunc_div, V2};
use crate::tempest::{
    enemies_ok, shots_ok, Blaster, Enemy, EnemyKind, GameState, Shot, Tempest, TempestView,
    DEPTH_FLOOR, DEPTH_UNIT,
};

verus! {

/// The tube: rim points around the playfield, and the vanishing point.
pub struct Tube {
    pub rim: Vec<V2>,
    pub center: V2,
    pub segments: usize,
}

impl Tube {
    pub open spec fn wf(&self) -> bool {
        &&& self.segments == self.rim.len()
        &&& self.segments > 0
        &&& in_field(self.center.x as int) && in_field(self.center.y as int)
        &&& forall|i: int| 0 <= i < self.rim.len() ==> in_field((#[trigger] self.rim@[i]).x as int) && in_field(self.rim@[i].y as int)
    }

    /// A tube through the given rim points, vanishing at `center`.
    pub fn from_rim(rim: Vec<V2>, center: V2) -> (r: Tube)
        ensures
            r.rim@ == rim@,
            r.center == center,
            r.segments == rim.len(),
    {
        let segments = rim.len();
        Tube { rim, center, segments }
    }

    /// The point at `depth` along a segment's rim point towards the centre.
    pub open spec fn point_spec(&self, segment: int, depth: int) -> V2 {
        let p = self.rim@[segment];
        V2 {
            x: (p.x + trunc_div((self.center.x - p.x) * depth, DEPTH_UNIT as int)) as i64,
            y: (p.y + trunc_div((self.center.y - p.y) * depth, DEPTH_UNIT as int)) as i64,
        }
    }

    /// The point at `depth` (0 at the rim, `DEPTH_UNIT` at the centre; beyond
    /// either, the line goes on) along a segment.
    pub fn point_at(&self, segment: usize, depth: i64) -> (r: V2)
        requires
            self.wf(),
            segment < self.segments,
            DEPTH_FLOOR <= depth <= DEPTH_UNIT,
        ensures
            r == self.point_spec(segment as int, depth as int),
            abs_int(r.x as int) <= 3_000_000 && abs_int(r.y as int) <= 3_000_000,
    {
        let p = self.rim[segment];
        assert(in_field(p.x as int) && in_field(p.y as int));
        proof {
            let ax = (self.center.x - p.x) * depth;
            let ay = (self.center.y - p.y) * depth;
            assert(abs_int(ax) <= 2_000_000 * DEPTH_UNIT) by (nonlinear_arith)
                requires ax == (self.center.x - p.x) * depth, -20_000 <= self.center.x - p.x <= 20_000,
                    DEPTH_FLOOR <= depth <= DEPTH_UNIT;
            assert(abs_int(ay) <= 2_000_000 * DEPTH_UNIT) by (nonlinear_arith)
                requires ay == (self.center.y - p.y) * depth, -20_000 <= self.center.y - p.y <= 20_000,
                    DEPTH_FLOOR <= depth <= DEPTH_UNIT;
            crate::geom::lemma_trunc_div_bound(ax, DEPTH_UNIT as int, 2_000_000);
            crate::geom::lemma_trunc_div_bound(ay, DEPTH_UNIT as int, 2_000_000);
        }
        V2::new(
            p.x + mul_div(self.center.x - p.x, depth, DEPTH_UNIT),
            p.y + mul_div(self.center.y - p.y, depth, DEPTH_UNIT),
        )
    }

    /// The rim points at a segment's two edges.
    pub fn segment_edges(&self, segment: usize) -> (r: (V2, V2))
        requires
            self.wf(),
            segment < self.segments,
        ensures
            r == (self.rim@[segment as int], self.rim@[((segment + 1) % self.segments as int) as int]),
    {
        (self.rim[segment], self.rim[(segment + 1) % self.segments])
    }
}

pub open spec fn color(r: u8, g: u8, b: u8) -> Rgba {
    Rgba { r, g, b, a: 255 }
}

fn rgb(r: u8, g: u8, b: u8) -> (c: Rgba)
    ensures
        c == color(r, g, b),
{
    Rgba { r, g, b, a: 255 }
}

pub open spec fn stroke(c: Rgba, width_tenths: u32) -> Stroke {
    Stroke { color: c, width_tenths }
}

/// The tube: a line from each rim point to the centre, then the rim.
pub open spec fn tube_scene(t: &Tube) -> Seq<DrawView> {
    Seq::new(
        t.segments as nat,
        |i: int| DrawView::Polyline { pts: seq![t.rim@[i], t.center], closed: false, stroke: stroke(color(0, 0, 255), 10) },
    ).push(DrawView::Polyline { pts: t.rim@.push(t.rim@[0]), closed: false, stroke: stroke(color(0, 0, 255), 20) })
}

/// Draws the tube.
pub fn render_tube(out: &mut Vec<DrawCmd>, tube: &Tube)
    requires
        tube.wf(),
    ensures
        views(final(out)@) == views(old(out)@) + tube_scene(tube),
{
    let ghost start = views(out@);
    let blue = rgb(0, 0, 255);
    let mut i: usize = 0;
    while i < tube.segments
        invariant
            i <= tube.segments,
            tube.wf(),
            blue == color(0, 0, 255),
            views(out@) == start + Seq::new(
                i as nat,
                |k: int| DrawView::Polyline { pts: seq![tube.rim@[k], tube.center], closed: false, stroke: stroke(color(0, 0, 255), 10) },
            ),
        decreases tube.segments - i,
    {
        let pts = vec![tube.rim[i], tube.center];
        assert(pts@ =~= seq![tube.rim@[i as int], tube.center]);
        emit(out, DrawCmd::Polyline { pts, closed: false, stroke: Stroke { color: blue, width_tenths: 10 } });
        i = i + 1;
        assert(views(out@) =~= start + Seq::new(
            i as nat,
            |k: int| DrawView::Polyline { pts: seq![tube.rim@[k], tube.center], closed: false, stroke: stroke(color(0, 0, 255), 10) },
        ));
    }
    let mut rim: Vec<V2> = Vec::new();
    let mut k: usize = 0;
    while k < tube.rim.len()
        invariant
            k <= tube.rim.len(),
            rim@ == tube.rim@.take(k as int),
        decreases tube.rim.len() - k,
    {
        rim.push(tube.rim[k]);
        k = k + 1;
        assert(rim@ =~= tube.rim@.take(k as int));
    }
    rim.push(tube.rim[0]);
    assert(rim@ =~= tube.rim@.push(tube.rim@[0]));
    emit(out, DrawCmd::Polyline { pts: rim, closed: false, stroke: Stroke { color: blue, width_tenths: 20 } });
    assert(views(out@) =~= start + tube_scene(tube));
}

/// Size of a marker at `depth`, shrinking towards the centre: `base` at the
/// rim, half of it at the centre.
pub open spec fn size_at(base: int, depth: int) -> int {
    trunc_div(base * (2 * DEPTH_UNIT - depth), 2 * DEPTH_UNIT as int)
}

fn size_of(base: i64, depth: i64) -> (r: i64)
    requires
        0 <= base <= 300,
        DEPTH_FLOOR <= depth <= DEPTH_UNIT,
    ensures
        r == size_at(base as int, depth as int),
        abs_int(r as int) <= 20_000,
{
    proof {
        let x = base * (2 * DEPTH_UNIT - depth);
        assert(abs_int(x) <= 20_000 * (2 * DEPTH_UNIT)) by (nonlinear_arith)
            requires x == base * (2 * DEPTH_UNIT - depth), 0 <= base <= 300, DEPTH_FLOOR <= depth <= DEPTH_UNIT;
        crate::geom::lemma_trunc_div_bound(x, 2 * DEPTH_UNIT as int, 20_000);
    }
    mul_div(base, 2 * DEPTH_UNIT - depth, 2 * DEPTH_UNIT)
}

pub open spec fn shot_scene(t: &Tube, s: Shot) -> Seq<DrawView> {
    let p = t.point_spec(s.segment as int, s.depth as int);
    let z = size_at(200, s.depth as int);
    seq![DrawView::Polyline {
        pts: seq![V2 { x: (p.x - z) as i64, y: p.y }, V2 { x: (p.x + z) as i64, y: p.y }],
        closed: false,
        stroke: stroke(color(255, 255, 0), 20),
    }]
}

pub open spec fn kind_color(k: EnemyKind) -> Rgba {
    match k {
        EnemyKind::Flipper => color(255, 0, 0),
        EnemyKind::Tanker => color(0, 255, 0),
        EnemyKind::Spiker => color(255, 0, 255),
    }
}

pub open spec fn enemy_scene(t: &Tube, e: Enemy) -> Seq<DrawView> {
    let p = t.point_spec(e.segment as int, e.depth as int);
    let z = size_at(300, e.depth as int);
    if !e.alive {
        seq![]
    } else {
        seq![DrawView::Polyline {
            pts: seq![
                V2 { x: p.x, y: (p.y + z) as i64 },
                V2 { x: (p.x + z) as i64, y: p.y },
                V2 { x: p.x, y: (p.y - z) as i64 },
                V2 { x: (p.x - z) as i64, y: p.y },
            ],
            closed: true,
            stroke: stroke(kind_color(e.kind), 20),
        }]
    }
}

pub open spec fn on_tube(t: &Tube, segment: usize) -> bool {
    segment < t.segments
}

pub open spec fn shots_scene(t: &Tube, s: Seq<Shot>, n: int) -> Seq<DrawView>
    decreases n,
{
    if n <= 0 { seq![] } else { shots_scene(t, s, n - 1) + shot_scene(t, s[n - 1]) }
}

pub open spec fn enemies_scene(t: &Tube, s: Seq<Enemy>, n: int) -> Seq<DrawView>
    decreases n,
{
    if n <= 0 { seq![] } else { enemies_scene(t, s, n - 1) + enemy_scene(t, s[n - 1]) }
}

/// Draws the shots as dashes along the tube.
pub fn render_shots(out: &mut Vec<DrawCmd>, tube: &Tube, shots: &Vec<Shot>)
    requires
        tube.wf(),
        shots_ok(shots@),
        forall|i: int| 0 <= i < shots.len() ==> on_tube(tube, (#[trigger] shots@[i]).segment),
    ensures
        views(final(out)@) == views(old(out)@) + shots_scene(tube, shots@, shots.len() as int),
{
    let ghost start = views(out@);
    let yellow = rgb(255, 255, 0);
    let mut i: usize = 0;
    while i < shots.len()
        invariant
            i <= shots.len(),
            tube.wf(),
            shots_ok(shots@),
            forall|k: int| 0 <= k < shots.len() ==> on_tube(tube, (#[trigger] shots@[k]).segment),
            yellow == color(255, 255, 0),
            views(out@) == start + shots_scene(tube, shots@, i as int),
        decreases shots.len() - i,
    {
        let s = shots[i];
        assert(on_tube(tube, shots@[i as int].segment));
        let p = tube.point_at(s.segment, s.depth);
        let z = size_of(200, s.depth);
        let left = V2::new(p.x - z, p.y);
        let right = V2::new(p.x + z, p.y);
        let pts = vec![left, right];
        let ghost pv = pts@;
        emit(out, DrawCmd::Polyline { pts, closed: false, stroke: Stroke { color: yellow, width_tenths: 20 } });
        assert(pv =~= seq![V2 { x: (p.x - z) as i64, y: p.y }, V2 { x: (p.x + z) as i64, y: p.y }]);
        i = i + 1;
        assert(views(out@) =~= start + shots_scene(tube, shots@, i as int));
    }
}

/// Draws the live enemies as diamonds in their kinds' colours.
pub fn render_enemies(out: &mut Vec<DrawCmd>, tube: &Tube, enemies: &Vec<Enemy>)
    requires
        tube.wf(),
        enemies_ok(enemies@),
        forall|i: int| 0 <= i < enemies.len() ==> on_tube(tube, (#[trigger] enemies@[i]).segment),
    ensures
        views(final(out)@) == views(old(out)@) + enemies_scene(tube, enemies@, enemies.len() as int),
{
    let ghost start = views(out@);
    let mut i: usize = 0;
    while i < enemies.len()
        invariant
            i <= enemies.len(),
            tube.wf(),
            enemies_ok(enemies@),
            forall|k: int| 0 <= k < enemies.len() ==> on_tube(tube, (#[trigger] enemies@[k]).segment),
            views(out@) == start + enemies_scene(tube, enemies@, i as int),
        decreases enemies.len() - i,
    {
        let e = enemies[i];
        if e.alive {
            assert(on_tube(tube, enemies@[i as int].segment));
            let p = tube.point_at(e.segment, e.depth);
            let z = size_of(300, e.depth);
            let c = match e.kind {
                EnemyKind::Flipper => rgb(255, 0, 0),
                EnemyKind::Tanker => rgb(0, 255, 0),
                EnemyKind::Spiker => rgb(255, 0, 255),
            };
            let top = V2::new(p.x, p.y + z);
            let right = V2::new(p.x + z, p.y);
            let bottom = V2::new(p.x, p.y - z);
            let left = V2::new(p.x - z, p.y);
            let pts = vec![top, right, bottom, left];
            let ghost pv = pts@;
            emit(out, DrawCmd::Polyline { pts, closed: true, stroke: Stroke { color: c, width_tenths: 20 } });
            assert(pv =~= seq![
                V2 { x: p.x, y: (p.y + z) as i64 },
                V2 { x: (p.x + z) as i64, y: p.y },
                V2 { x: p.x, y: (p.y - z) as i64 },
                V2 { x: (p.x - z) as i64, y: p.y },
            ]);
        }
        i = i + 1;
        assert(views(out@) =~= start + enemies_scene(tube, enemies@, i as int));
    }
}

/// The blaster: a claw from one edge of its segment, dipping towards the
/// centre, to the other edge.
pub open spec fn blaster_scene(t: &Tube, b: Blaster) -> Seq<DrawView> {
    let a = t.rim@[b.segment as int];
    let c = t.rim@[((b.segment + 1) % t.segments as int) as int];
    let mid = V2 { x: trunc_div(a.x + c.x, 2) as i64, y: trunc_div(a.y + c.y, 2) as i64 };
    let dx = t.center.x - mid.x;
    let dy = t.center.y - mid.y;
    let len = floor_sqrt(dx * dx + dy * dy);
    let tip = if len == 0 {
        mid
    } else {
        V2 { x: (mid.x + trunc_div(dx * 500, len)) as i64, y: (mid.y + trunc_div(dy * 500, len)) as i64 }
    };
    seq![DrawView::Polyline { pts: seq![a, tip, c], closed: false, stroke: stroke(color(255, 255, 0), 30) }]
}

/// Draws the blaster.
pub fn render_blaster(out: &mut Vec<DrawCmd>, tube: &Tube, blaster: &Blaster)
    requires
        tube.wf(),
        blaster.segment < tube.segments,
    ensures
        views(final(out)@) == views(old(out)@) + blaster_scene(tube, *blaster),
{
    let ghost start = views(out@);
    let (a, c) = tube.segment_edges(blaster.segment);
    assert(in_field(a.x as int) && in_field(a.y as int) && in_field(c.x as int) && in_field(c.y as int));
    let sx = a.x + c.x;
    let sy = a.y + c.y;
    let mid = V2::new(if sx >= 0 { sx / 2 } else { -((-sx) / 2) }, if sy >= 0 { sy / 2 } else { -((-sy) / 2) });
    let dx = tube.center.x - mid.x;
    let dy = tube.center.y - mid.y;
    let x = dx as i128;
    let y = dy as i128;
    assert(0 <= x * x <= 400_000_000) by (nonlinear_arith) requires -20_000 <= x <= 20_000;
    assert(0 <= y * y <= 400_000_000) by (nonlinear_arith) requires -20_000 <= y <= 20_000;
    let n = x * x + y * y;
    let len = isqrt(n as u64);
    assert(len <= 40_000) by (nonlinear_arith) requires len * len <= n, n <= 800_000_000, len >= 0;
    let tip = if len == 0 {
        mid
    } else {
        assert(abs_int(dx as int) <= len) by (nonlinear_arith) requires x * x <= n, n < (len + 1) * (len + 1), len >= 0, x == dx;
        assert(abs_int(dy as int) <= len) by (nonlinear_arith) requires y * y <= n, n < (len + 1) * (len + 1), len >= 0, y == dy;
        let l = len as i64;
        proof {
            lemma_ratio_bound(dx as int, 500, l as int);
            lemma_ratio_bound(dy as int, 500, l as int);
        }
        V2::new(mid.x + mul_div(dx, 500, l), mid.y + mul_div(dy, 500, l))
    };
    let pts = vec![a, tip, c];
    let ghost pv = pts@;
    emit(out, DrawCmd::Polyline { pts, closed: false, stroke: Stroke { color: rgb(255, 255, 0), width_tenths: 30 } });
    assert(pv =~= seq![a, tip, c]);
    assert(views(out@) =~= start + blaster_scene(tube, *blaster));
}

pub open spec fn text_at(x: int, y: int, text: Seq<char>, size_px: u32, c: Rgba) -> DrawView {
    DrawView::Text { pos: V2 { x: x as i64, y: y as i64 }, text, size_px, color: c }
}

fn say(out: &mut Vec<DrawCmd>, x: i64, y: i64, s: &str, size_px: u32, c: Rgba)
    ensures
        views(final(out)@) == views(old(out)@).push(text_at(x as int, y as int, s@, size_px, c)),
{
    emit(out, DrawCmd::Text { pos: V2::new(x, y), text: text_of(s), size_px, color: c });
}

pub open spec fn instructions_scene() -> Seq<DrawView> {
    seq![
        text_at(-2_000, 5_000, "TEMPEST"@, 24, color(255, 255, 0)),
        text_at(-3_500, 2_000, "LEFT/RIGHT: MOVE"@, 12, color(0, 0, 255)),
        text_at(-2_200, 500, "SPACE: FIRE"@, 12, color(0, 0, 255)),
        text_at(-4_000, -2_000, "DESTROY ALL ENEMIES"@, 12, color(0, 0, 255)),
        text_at(-4_200, -5_000, "PRESS SPACE TO START"@, 14, color(255, 255, 0)),
    ]
}

/// Score in six zero-padded digits; level and lives as "L<level> x<lives>".
pub open spec fn hud_scene(score: u32, lives: u8, level: u8) -> Seq<DrawView> {
    seq![
        text_at(-9_500, 8_500, zero_pad(decimal_spec(score as nat), 6), 14, color(0, 255, 255)),
        text_at(5_500, 8_500, seq!['L'] + decimal_spec(level as nat) + seq![' ', 'x'] + decimal_spec(lives as nat), 14, color(0, 255, 255)),
    ]
}

/// A frame: the screen cleared, then the instructions only; or the tube,
/// the blaster, the shots, the enemies, the score line, and GAME OVER once
/// the game has ended.
pub open spec fn game_scene(v: TempestView, t: &Tube) -> Seq<DrawView> {
    seq![DrawView::Clear { color: Rgba::black_spec() }] + if v.state == GameState::Instructions {
        instructions_scene()
    } else {
        tube_scene(t) + blaster_scene(t, v.blaster) + shots_scene(t, v.shots, v.shots.len() as int)
            + enemies_scene(t, v.enemies, v.enemies.len() as int) + hud_scene(v.score, v.lives, v.level)
            + if v.state == GameState::GameOver {
            seq![text_at(-2_800, 0, "GAME OVER"@, 24, color(255, 0, 0))]
        } else {
            seq![]
        }
    }
}

impl Tempest {
    /// The draw commands of a frame, a function of the state and the tube
    /// alone: two renders with no update between them give the same
    /// commands.
    pub fn render(&self, tube: &Tube) -> (out: Vec<DrawCmd>)
        requires
            self@.wf(),
            tube.wf(),
            tube.segments == self.segments,
            forall|i: int| 0 <= i < self.shots.len() ==> on_tube(tube, (#[trigger] self.shots@[i]).segment),
            forall|i: int| 0 <= i < self.enemies.len() ==> on_tube(tube, (#[trigger] self.enemies@[i]).segment),
        ensures
            views(out@) == game_scene(self@, tube),
    {
        let mut out: Vec<DrawCmd> = Vec::new();
        emit(&mut out, DrawCmd::Clear { color: Rgba::black() });
        let yellow = rgb(255, 255, 0);
        let blue = rgb(0, 0, 255);
        if self.state == GameState::Instructions {
            say(&mut out, -2_000, 5_000, "TEMPEST", 24, yellow);
            say(&mut out, -3_500, 2_000, "LEFT/RIGHT: MOVE", 12, blue);
            say(&mut out, -2_200, 500, "SPACE: FIRE", 12, blue);
            say(&mut out, -4_000, -2_000, "DESTROY ALL ENEMIES", 12, blue);
            say(&mut out, -4_200, -5_000, "PRESS SPACE TO START", 14, yellow);
            assert(views(out@) =~= game_scene(self@, tube));
            return out;
        }
        render_tube(&mut out, tube);
        render_blaster(&mut out, tube, &self.blaster);
        render_shots(&mut out, tube, &self.shots);
        render_enemies(&mut out, tube, &self.enemies);
        let cyan = rgb(0, 255, 255);
        let ghost h0 = views(out@);
        emit(&mut out, DrawCmd::Text { pos: V2::new(-9_500, 8_500), text: padded_decimal(self.score, 6), size_px: 14, color: cyan });
        let l = vec!['L'];
        let x = vec![' ', 'x'];
        assert(l@ =~= seq!['L']);
        assert(x@ =~= seq![' ', 'x']);
        let t = concat(concat(concat(l, decimal(self.level as u32)), x), decimal(self.lives as u32));
        emit(&mut out, DrawCmd::Text { pos: V2::new(5_500, 8_500), text: t, size_px: 14, color: cyan });
        assert(views(out@) =~= h0 + hud_scene(self.score, self.lives, self.level));
        if self.state == GameState::GameOver {
            say(&mut out, -2_800, 0, "GAME OVER", 24, rgb(255, 0, 0));
        }
        assert(views(out@) =~= game_scene(self@, tube));
        out
    }
}

} // verus!
