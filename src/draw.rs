//! Draw commands: what a game hands to the renderer each frame, in drawing
//! order (later commands draw on top).

use vstd::prelude::*;
use crate::geom::{mul_div, trunc_div, V2, UNIT};

verus! {

/// A colour, 0 to 255 per channel, with opacity.
#[derive(Clone, Copy, Debug, PartialEq, Eq, Structural)]
pub struct Rgba {
    pub r: u8,
    pub g: u8,
    pub b: u8,
    pub a: u8,
}

impl Rgba {
    pub open spec fn black_spec() -> Rgba {
        Rgba { r: 0, g: 0, b: 0, a: 255 }
    }

    pub open spec fn white_spec() -> Rgba {
        Rgba { r: 255, g: 255, b: 255, a: 255 }
    }

    /// Opaque black.
    pub fn black() -> (c: Rgba)
        ensures
            c == Rgba::black_spec(),
    {
        Rgba { r: 0, g: 0, b: 0, a: 255 }
    }

    /// Opaque white.
    pub fn white() -> (c: Rgba)
        ensures
            c == Rgba::white_spec(),
    {
        Rgba { r: 255, g: 255, b: 255, a: 255 }
    }
}

/// How a line is drawn: colour and width in tenths of a pixel.
#[derive(Clone, Copy, Debug, PartialEq, Eq, Structural)]
pub struct Stroke {
    pub color: Rgba,
    pub width_tenths: u32,
}

/// One drawing primitive.
#[derive(Debug)]
pub enum DrawCmd {
    /// Fill the screen.
    Clear { color: Rgba },
    /// Line segments through the points, back to the first when `closed`.
    Polyline { pts: Vec<V2>, closed: bool, stroke: Stroke },
    /// A line of text whose lower left corner is at `pos`.
    Text { pos: V2, text: Vec<char>, size_px: u32, color: Rgba },
}

/// A draw command as values.
pub enum DrawView {
    Clear { color: Rgba },
    Polyline { pts: Seq<V2>, closed: bool, stroke: Stroke },
    Text { pos: V2, text: Seq<char>, size_px: u32, color: Rgba },
}

impl View for DrawCmd {
    type V = DrawView;

    open spec fn view(&self) -> DrawView {
        match self {
            DrawCmd::Clear { color } => DrawView::Clear { color: *color },
            DrawCmd::Polyline { pts, closed, stroke } => DrawView::Polyline {
                pts: pts@,
                closed: *closed,
                stroke: *stroke,
            },
            DrawCmd::Text { pos, text, size_px, color } => DrawView::Text {
                pos: *pos,
                text: text@,
                size_px: *size_px,
                color: *color,
            },
        }
    }
}

/// The views of a list of commands.
pub open spec fn views(cmds: Seq<DrawCmd>) -> Seq<DrawView> {
    Seq::new(cmds.len(), |i: int| cmds[i]@)
}

pub proof fn lemma_views_push(cmds: Seq<DrawCmd>, c: DrawCmd)
    ensures
        views(cmds.push(c)) == views(cmds).push(c@),
{
    assert(views(cmds.push(c)) =~= views(cmds).push(c@));
}

/// Appends one command.
pub fn emit(out: &mut Vec<DrawCmd>, c: DrawCmd)
    ensures
        views(final(out)@) == views(old(out)@).push(c@),
{
    let ghost start = out@;
    out.push(c);
    assert(views(out@) =~= views(start).push(c@));
}

/// The characters of a string.
pub fn text_of(s: &str) -> (r: Vec<char>)
    ensures
        r@ == s@,
{
    let n = s.unicode_len();
    let mut r: Vec<char> = Vec::new();
    let mut i: usize = 0;
    while i < n
        invariant
            n == s@.len(),
            i <= n,
            r@ == s@.take(i as int),
        decreases n - i,
    {
        r.push(s.get_char(i));
        i = i + 1;
        assert(r@ =~= s@.take(i as int));
    }
    assert(s@.take(n as int) =~= s@);
    r
}

/// `t` padded on the left with `fill` to at least `width` characters.
pub open spec fn pad_spec(t: Seq<char>, width: nat, fill: char) -> Seq<char> {
    if t.len() >= width {
        t
    } else {
        Seq::new((width - t.len()) as nat, |i: int| fill) + t
    }
}

/// `t` padded on the left with zeros to at least `width` characters.
pub open spec fn zero_pad(t: Seq<char>, width: nat) -> Seq<char> {
    pad_spec(t, width, '0')
}

/// Pads `t` on the left with `fill` to at least `width` characters.
pub fn pad_left(t: Vec<char>, width: usize, fill: char) -> (r: Vec<char>)
    ensures
        r@ == pad_spec(t@, width as nat, fill),
{
    if t.len() >= width {
        return t;
    }
    let mut r: Vec<char> = Vec::new();
    let k = width - t.len();
    let mut i: usize = 0;
    while i < k
        invariant
            i <= k,
            r@ == Seq::new(i as nat, |j: int| fill),
        decreases k - i,
    {
        r.push(fill);
        i = i + 1;
        assert(r@ =~= Seq::new(i as nat, |j: int| fill));
    }
    let ghost head = r@;
    let mut t = t;
    let ghost tv = t@;
    r.append(&mut t);
    assert(r@ =~= Seq::new(k as nat, |j: int| fill) + tv);
    r
}

/// `h` hundredths written with two decimals, such as "12.05".
pub open spec fn hundredths_spec(h: nat) -> Seq<char> {
    decimal_spec(h / 100) + seq!['.', digit_spec(((h / 10) % 10) as int), digit_spec((h % 10) as int)]
}

/// Writes `h` hundredths with two decimals.
pub fn hundredths(h: u32) -> (r: Vec<char>)
    ensures
        r@ == hundredths_spec(h as nat),
{
    let mut r = decimal(h / 100);
    let ghost head = r@;
    r.push('.');
    r.push(digit((h / 10) % 10));
    r.push(digit(h % 10));
    assert(r@ =~= hundredths_spec(h as nat));
    r
}

/// `a` followed by `b`.
pub fn concat(a: Vec<char>, b: Vec<char>) -> (r: Vec<char>)
    ensures
        r@ == a@ + b@,
{
    let mut a = a;
    let mut b = b;
    a.append(&mut b);
    a
}

/// `n` in decimal, padded with zeros to at least `width` digits.
pub fn padded_decimal(n: u32, width: usize) -> (r: Vec<char>)
    ensures
        r@ == zero_pad(decimal_spec(n as nat), width as nat),
{
    pad_left(decimal(n), width, '0')
}

/// The point `(x, y)` of a shape turned to face `f` and placed at `pos`.
pub open spec fn turned(pos: V2, f: V2, x: int, y: int) -> V2 {
    V2 {
        x: (pos.x + trunc_div(x * f.x - y * f.y, UNIT as int)) as i64,
        y: (pos.y + trunc_div(x * f.y + y * f.x, UNIT as int)) as i64,
    }
}

pub fn turned_pt(pos: V2, f: V2, x: i64, y: i64) -> (r: V2)
    requires
        pos.in_limit(),
        crate::geom::is_direction(f),
        -1_000 <= x <= 1_000,
        -1_000 <= y <= 1_000,
    ensures
        r == turned(pos, f, x as int, y as int),
{
    assert(-10_000_000 <= x * f.x <= 10_000_000) by (nonlinear_arith)
        requires -1_000 <= x <= 1_000, -10_000 <= f.x <= 10_000;
    assert(-10_000_000 <= y * f.y <= 10_000_000) by (nonlinear_arith)
        requires -1_000 <= y <= 1_000, -10_000 <= f.y <= 10_000;
    assert(-10_000_000 <= x * f.y <= 10_000_000) by (nonlinear_arith)
        requires -1_000 <= x <= 1_000, -10_000 <= f.y <= 10_000;
    assert(-10_000_000 <= y * f.x <= 10_000_000) by (nonlinear_arith)
        requires -1_000 <= y <= 1_000, -10_000 <= f.x <= 10_000;
    let a = x * f.x - y * f.y;
    let b = x * f.y + y * f.x;
    let dx = mul_div(a, 1, UNIT);
    let dy = mul_div(b, 1, UNIT);
    assert(a * 1 == a && b * 1 == b);
    V2::new(pos.x + dx, pos.y + dy)
}

/// The outline of the axis-aligned rectangle from `lo` to `hi`, counter-
/// clockwise from `lo`.
pub open spec fn rect_pts(lo: V2, hi: V2) -> Seq<V2> {
    seq![lo, V2 { x: hi.x, y: lo.y }, hi, V2 { x: lo.x, y: hi.y }]
}

/// A closed rectangle outline.
pub fn rect_wire(lo: V2, hi: V2, stroke: Stroke) -> (r: DrawCmd)
    ensures
        r@ == (DrawView::Polyline { pts: rect_pts(lo, hi), closed: true, stroke }),
{
    let pts = vec![lo, V2::new(hi.x, lo.y), hi, V2::new(lo.x, hi.y)];
    assert(pts@ =~= rect_pts(lo, hi));
    DrawCmd::Polyline { pts, closed: true, stroke }
}

pub open spec fn digit_spec(d: int) -> char {
    if d == 0 {
        '0'
    } else if d == 1 {
        '1'
    } else if d == 2 {
        '2'
    } else if d == 3 {
        '3'
    } else if d == 4 {
        '4'
    } else if d == 5 {
        '5'
    } else if d == 6 {
        '6'
    } else if d == 7 {
        '7'
    } else if d == 8 {
        '8'
    } else {
        '9'
    }
}

/// The decimal digits of `n`, most significant first, without leading
/// zeros ("0" for zero).
pub open spec fn decimal_spec(n: nat) -> Seq<char>
    decreases n,
{
    if n < 10 {
        seq![digit_spec(n as int)]
    } else {
        decimal_spec(n / 10).push(digit_spec((n % 10) as int))
    }
}

fn digit(d: u32) -> (c: char)
    requires
        d < 10,
    ensures
        c == digit_spec(d as int),
{
    if d == 0 {
        '0'
    } else if d == 1 {
        '1'
    } else if d == 2 {
        '2'
    } else if d == 3 {
        '3'
    } else if d == 4 {
        '4'
    } else if d == 5 {
        '5'
    } else if d == 6 {
        '6'
    } else if d == 7 {
        '7'
    } else if d == 8 {
        '8'
    } else {
        '9'
    }
}

/// `n` written in decimal.
pub fn decimal(n: u32) -> (r: Vec<char>)
    ensures
        r@ == decimal_spec(n as nat),
    decreases n,
{
    if n < 10 {
        let r = vec![digit(n)];
        assert(r@ =~= seq![digit_spec(n as int)]);
        r
    } else {
        let mut r = decimal(n / 10);
        r.push(digit(n % 10));
        r
    }
}

} // verus!
