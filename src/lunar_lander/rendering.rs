//! What a Lunar Lander frame looks like, as draw commands. The lander is
//! drawn along its axis, a unit vector `(sin, cos)` of its tilt that the host
//! supplies.

use vstd::prelude::*;
use crate::draw::{
    concat, decimal, decimal_spec, emit, hundredths, hundredths_spec, pad_left, pad_spec, text_of,
    turned, turned_pt, views, DrawCmd, DrawView, Rgba, Stroke,
};
use crate::geom::{abs_int, floor_sqrt, is_direction, isqrt, trunc_div, V2};
use crate::lunar_lander::{pad_ok, GameState, Lander, LandingPad, LunarLander, Terrain, ENVELOPE};

verus! {

pub open spec fn white(width_tenths: u32) -> Stroke {
    Stroke { color: Rgba::white_spec(), width_tenths }
}

pub open spec fn label(x: int, y: int, text: Seq<char>, size_px: u32) -> DrawView {
    DrawView::Text { pos: V2 { x: x as i64, y: y as i64 }, text, size_px, color: Rgba::white_spec() }
}

/// The rotation that draws with `axis = (sin, cos)`.
pub open spec fn frame_of(axis: V2) -> V2 {
    V2 { x: axis.y, y: axis.x }
}

/// The lander: body, two legs, and a flame while thrusting.
pub open spec fn lander_scene(l: Lander, axis: V2) -> Seq<DrawView> {
    let f = frame_of(axis);
    let p = l.pos;
    let body = seq![
        DrawView::Polyline { pts: seq![turned(p, f, 0, 400), turned(p, f, -250, -200), turned(p, f, 250, -200)], closed: true, stroke: white(20) },
        DrawView::Polyline { pts: seq![turned(p, f, -200, -200), turned(p, f, -350, -500)], closed: false, stroke: white(15) },
        DrawView::Polyline { pts: seq![turned(p, f, 200, -200), turned(p, f, 350, -500)], closed: false, stroke: white(15) },
    ];
    if l.thrusting {
        body.push(DrawView::Polyline { pts: seq![turned(p, f, -120, -200), turned(p, f, 0, -700), turned(p, f, 120, -200)], closed: false, stroke: white(20) })
    } else {
        body
    }
}

/// Draws the lander along `axis`.
pub fn render_lander(out: &mut Vec<DrawCmd>, lander: &Lander, axis: V2)
    requires
        lander.wf(),
        is_direction(axis),
    ensures
        views(final(out)@) == views(old(out)@) + lander_scene(*lander, axis),
{
    let ghost start = views(out@);
    let f = V2::new(axis.y, axis.x);
    let p = lander.pos;
    let body = vec![turned_pt(p, f, 0, 400), turned_pt(p, f, -250, -200), turned_pt(p, f, 250, -200)];
    let leg_l = vec![turned_pt(p, f, -200, -200), turned_pt(p, f, -350, -500)];
    let leg_r = vec![turned_pt(p, f, 200, -200), turned_pt(p, f, 350, -500)];
    let ghost (b, l, r) = (body@, leg_l@, leg_r@);
    emit(out, DrawCmd::Polyline { pts: body, closed: true, stroke: Stroke { color: Rgba::white(), width_tenths: 20 } });
    emit(out, DrawCmd::Polyline { pts: leg_l, closed: false, stroke: Stroke { color: Rgba::white(), width_tenths: 15 } });
    emit(out, DrawCmd::Polyline { pts: leg_r, closed: false, stroke: Stroke { color: Rgba::white(), width_tenths: 15 } });
    assert(b =~= seq![turned(p, f, 0, 400), turned(p, f, -250, -200), turned(p, f, 250, -200)]);
    assert(l =~= seq![turned(p, f, -200, -200), turned(p, f, -350, -500)]);
    assert(r =~= seq![turned(p, f, 200, -200), turned(p, f, 350, -500)]);
    if lander.thrusting {
        let flame = vec![turned_pt(p, f, -120, -200), turned_pt(p, f, 0, -700), turned_pt(p, f, 120, -200)];
        let ghost fl = flame@;
        emit(out, DrawCmd::Polyline { pts: flame, closed: false, stroke: Stroke { color: Rgba::white(), width_tenths: 20 } });
        assert(fl =~= seq![turned(p, f, -120, -200), turned(p, f, 0, -700), turned(p, f, 120, -200)]);
    }
    assert(views(out@) =~= start + lander_scene(*lander, axis));
}

/// A pad: a thick line, and its score multiplier beneath its middle.
pub open spec fn pad_scene(p: LandingPad) -> Seq<DrawView> {
    seq![
        DrawView::Polyline { pts: seq![V2 { x: p.x_min, y: p.y }, V2 { x: p.x_max, y: p.y }], closed: false, stroke: white(30) },
        label(trunc_div(p.x_min + p.x_max, 2) - 200, p.y - 500, seq!['x'] + decimal_spec(p.multiplier as nat), 10),
    ]
}

pub open spec fn pads_scene(pads: Seq<LandingPad>, n: int) -> Seq<DrawView>
    decreases n,
{
    if n <= 0 { seq![] } else { pads_scene(pads, n - 1) + pad_scene(pads[n - 1]) }
}

/// The surface as one line, then the pads.
pub open spec fn terrain_scene(points: Seq<V2>, pads: Seq<LandingPad>) -> Seq<DrawView> {
    seq![DrawView::Polyline { pts: points, closed: false, stroke: white(15) }] + pads_scene(pads, pads.len() as int)
}

/// Draws the terrain.
pub fn render_terrain(out: &mut Vec<DrawCmd>, terrain: &Terrain)
    requires
        terrain.wf(),
    ensures
        views(final(out)@) == views(old(out)@) + terrain_scene(terrain.points@, terrain.pads@),
{
    let ghost start = views(out@);
    let mut pts: Vec<V2> = Vec::new();
    let mut i: usize = 0;
    while i < terrain.points.len()
        invariant
            i <= terrain.points.len(),
            pts@ == terrain.points@.take(i as int),
        decreases terrain.points.len() - i,
    {
        pts.push(terrain.points[i]);
        i = i + 1;
        assert(pts@ =~= terrain.points@.take(i as int));
    }
    assert(pts@ =~= terrain.points@);
    emit(out, DrawCmd::Polyline { pts, closed: false, stroke: Stroke { color: Rgba::white(), width_tenths: 15 } });
    let ghost head = views(out@);
    let mut k: usize = 0;
    while k < terrain.pads.len()
        invariant
            k <= terrain.pads.len(),
            terrain.wf(),
            views(out@) == head + pads_scene(terrain.pads@, k as int),
        decreases terrain.pads.len() - k,
    {
        let p = terrain.pads[k];
        assert(pad_ok(terrain.pads@[k as int]));
        let line = vec![V2::new(p.x_min, p.y), V2::new(p.x_max, p.y)];
        let ghost lv = line@;
        emit(out, DrawCmd::Polyline { pts: line, closed: false, stroke: Stroke { color: Rgba::white(), width_tenths: 30 } });
        let s = p.x_min + p.x_max;
        let mid = if s >= 0 { s / 2 } else { -((-s) / 2) };
        let xs = vec!['x'];
        assert(xs@ =~= seq!['x']);
        let t = concat(xs, decimal(p.multiplier));
        assert(mid == trunc_div(p.x_min + p.x_max, 2));
        emit(out, DrawCmd::Text { pos: V2::new(mid - 200, p.y - 500), text: t, size_px: 10, color: Rgba::white() });
        assert(lv =~= seq![V2 { x: p.x_min, y: p.y }, V2 { x: p.x_max, y: p.y }]);
        k = k + 1;
        assert(views(out@) =~= head + pads_scene(terrain.pads@, k as int));
    }
    assert(views(out@) =~= start + terrain_scene(terrain.points@, terrain.pads@));
}

/// Fuel left, in whole units rounded to nearest, right-aligned in three
/// places.
pub open spec fn fuel_text(fuel: int) -> Seq<char> {
    "FUEL: "@ + pad_spec(decimal_spec(((fuel + 5_000) / 10_000) as nat), 3, ' ')
}

/// Speed to two decimals, rounded to nearest.
pub open spec fn vel_text(v: V2) -> Seq<char> {
    "VEL: "@ + hundredths_spec(((floor_sqrt(v.x * v.x + v.y * v.y) + 50) / 100) as nat)
}

/// Height above the lowest ground to two decimals, rounded to nearest.
pub open spec fn alt_text(y: int) -> Seq<char> {
    let a = y + 9_000;
    let h = (abs_int(a) + 50) / 100;
    "ALT: "@ + (if a < 0 && h > 0 { seq!['-'] } else { seq![] }) + hundredths_spec(h as nat)
}

/// Fuel, speed and altitude.
pub open spec fn hud_scene(l: Lander) -> Seq<DrawView> {
    seq![
        label(-9_500, 9_000, fuel_text(l.fuel as int), 14),
        label(-9_500, 8_000, vel_text(l.vel), 12),
        label(5_000, 9_000, alt_text(l.pos.y as int), 12),
    ]
}

/// Draws fuel, speed and altitude.
pub fn render_hud(out: &mut Vec<DrawCmd>, lander: &Lander)
    requires
        lander.wf(),
        lander.in_envelope(),
    ensures
        views(final(out)@) == views(old(out)@) + hud_scene(*lander),
{
    let ghost start = views(out@);
    let whole = ((lander.fuel + 5_000) / 10_000) as u32;
    let fuel = concat(text_of("FUEL: "), pad_left(decimal(whole), 3, ' '));
    emit(out, DrawCmd::Text { pos: V2::new(-9_500, 9_000), text: fuel, size_px: 14, color: Rgba::white() });
    let x = lander.vel.x as i128;
    let y = lander.vel.y as i128;
    assert(0 <= x * x <= (ENVELOPE as int) * ENVELOPE) by (nonlinear_arith) requires -ENVELOPE <= x <= ENVELOPE;
    assert(0 <= y * y <= (ENVELOPE as int) * ENVELOPE) by (nonlinear_arith) requires -ENVELOPE <= y <= ENVELOPE;
    let len = isqrt((x * x + y * y) as u64);
    assert(len <= 1_000_000_000) by (nonlinear_arith)
        requires len * len <= x * x + y * y, x * x + y * y <= 2 * (ENVELOPE as int) * ENVELOPE, len >= 0;
    let vel = concat(text_of("VEL: "), hundredths(((len + 50) / 100) as u32));
    emit(out, DrawCmd::Text { pos: V2::new(-9_500, 8_000), text: vel, size_px: 12, color: Rgba::white() });
    let a = lander.pos.y + 9_000;
    let m = if a < 0 { -a } else { a };
    let h = ((m + 50) / 100) as u32;
    let sign: Vec<char> = if a < 0 && h > 0 { vec!['-'] } else { Vec::new() };
    let ghost sv = sign@;
    let alt = concat(concat(text_of("ALT: "), sign), hundredths(h));
    emit(out, DrawCmd::Text { pos: V2::new(5_000, 9_000), text: alt, size_px: 12, color: Rgba::white() });
    assert(sv =~= (if a < 0 && h > 0 { seq!['-'] } else { seq![] }));
    assert(views(out@) =~= start + hud_scene(*lander));
}

pub open spec fn instructions_scene() -> Seq<DrawView> {
    seq![
        label(-5_000, 6_500, "LUNAR LANDER"@, 96),
        label(-7_000, 3_500, "LEFT/RIGHT - ROTATE"@, 48),
        label(-7_200, 1_500, "UP OR SPACE - THRUST"@, 48),
        label(-6_200, -500, "LAND ON FLAT PADS"@, 48),
        label(-7_500, -2_500, "LAND SLOWLY AND LEVEL"@, 48),
        label(-8_200, -4_500, "CONSERVE FUEL FOR BONUS"@, 48),
        label(-7_000, -7_500, "PRESS SPACE TO START"@, 56),
    ]
}

fn say(out: &mut Vec<DrawCmd>, x: i64, y: i64, s: &str, size_px: u32)
    ensures
        views(final(out)@) == views(old(out)@).push(label(x as int, y as int, s@, size_px)),
{
    emit(out, DrawCmd::Text { pos: V2::new(x, y), text: text_of(s), size_px, color: Rgba::white() });
}

/// The end banner: LANDED! with the score, or CRASHED!.
pub open spec fn banner_scene(state: GameState, score: u32) -> Seq<DrawView> {
    if state == GameState::Landed {
        seq![label(-2_500, 1_000, "LANDED!"@, 24), label(-2_000, -500, "SCORE: "@ + decimal_spec(score as nat), 18)]
    } else if state == GameState::Crashed {
        seq![label(-2_500, 0, "CRASHED!"@, 24)]
    } else {
        seq![]
    }
}

/// A frame: the screen cleared, then the instructions only; or the terrain,
/// the lander, the instruments and the end banner.
pub open spec fn game_scene(g: LunarLander, axis: V2) -> Seq<DrawView> {
    seq![DrawView::Clear { color: Rgba::black_spec() }] + if g.state == GameState::Instructions {
        instructions_scene()
    } else {
        terrain_scene(g.terrain.points@, g.terrain.pads@) + lander_scene(g.lander, axis) + hud_scene(g.lander)
            + banner_scene(g.state, g.score)
    }
}

impl LunarLander {
    /// The draw commands of a frame, a function of the state and the axis
    /// alone: two renders with no update between them give the same
    /// commands.
    pub fn render(&self, axis: V2) -> (out: Vec<DrawCmd>)
        requires
            self.wf(),
            self.lander.in_envelope(),
            is_direction(axis),
        ensures
            views(out@) == game_scene(*self, axis),
    {
        let mut out: Vec<DrawCmd> = Vec::new();
        emit(&mut out, DrawCmd::Clear { color: Rgba::black() });
        let ghost head = views(out@);
        if self.state == GameState::Instructions {
            say(&mut out, -5_000, 6_500, "LUNAR LANDER", 96);
            say(&mut out, -7_000, 3_500, "LEFT/RIGHT - ROTATE", 48);
            say(&mut out, -7_200, 1_500, "UP OR SPACE - THRUST", 48);
            say(&mut out, -6_200, -500, "LAND ON FLAT PADS", 48);
            say(&mut out, -7_500, -2_500, "LAND SLOWLY AND LEVEL", 48);
            say(&mut out, -8_200, -4_500, "CONSERVE FUEL FOR BONUS", 48);
            say(&mut out, -7_000, -7_500, "PRESS SPACE TO START", 56);
            assert(views(out@) =~= game_scene(*self, axis));
            return out;
        }
        render_terrain(&mut out, &self.terrain);
        render_lander(&mut out, &self.lander, axis);
        render_hud(&mut out, &self.lander);
        let ghost before = views(out@);
        if self.state == GameState::Landed {
            say(&mut out, -2_500, 1_000, "LANDED!", 24);
            let t = concat(text_of("SCORE: "), decimal(self.score));
            emit(&mut out, DrawCmd::Text { pos: V2::new(-2_000, -500), text: t, size_px: 18, color: Rgba::white() });
        } else if self.state == GameState::Crashed {
            say(&mut out, -2_500, 0, "CRASHED!", 24);
        }
        assert(views(out@) =~= before + banner_scene(self.state, self.score));
        assert(views(out@) =~= game_scene(*self, axis));
        out
    }
}

} // verus!
