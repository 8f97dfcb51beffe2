//! A static chess board with the pieces in their starting places, drawn in
//! vectors.

use vstd::prelude::*;
use crate::draw::{emit, text_of, views, DrawCmd, DrawView, Rgba, Stroke};
use crate::geom::{mul_div, trunc_div, UNIT, V2};

verus! {

/// Side of the board.
pub const BOARD_SIZE: i64 = 13_000;
/// Side of one square.
pub const SQUARE_SIZE: i64 = 1_625;
/// Lower left corner of the board.
pub const BOARD_X: i64 = -5_500;
pub const BOARD_Y: i64 = -7_500;
/// Scale of the back-row pieces and of the pawns.
pub const PIECE_SCALE: i64 = 568;
pub const PAWN_SCALE: i64 = 487;

pub const KING: u8 = 0;
pub const QUEEN: u8 = 1;
pub const ROOK: u8 = 2;
pub const BISHOP: u8 = 3;
pub const KNIGHT: u8 = 4;
pub const PAWN: u8 = 5;

pub open spec fn white(width_tenths: u32) -> Stroke {
    Stroke { color: Rgba::white_spec(), width_tenths }
}

pub open spec fn line(a: V2, b: V2, width_tenths: u32) -> DrawView {
    DrawView::Polyline { pts: seq![a, b], closed: false, stroke: white(width_tenths) }
}

fn draw_line(out: &mut Vec<DrawCmd>, a: V2, b: V2, width_tenths: u32)
    ensures
        views(final(out)@) == views(old(out)@).push(line(a, b, width_tenths)),
{
    let pts = vec![a, b];
    assert(pts@ =~= seq![a, b]);
    emit(out, DrawCmd::Polyline { pts, closed: false, stroke: Stroke { color: Rgba::white(), width_tenths } });
}

/// Centre of the square in `row` (from White's side) and `col` (from file A),
/// rounded down.
pub open spec fn center_spec(row: int, col: int) -> V2 {
    V2 {
        x: (BOARD_X + (2 * col + 1) * SQUARE_SIZE / 2) as i64,
        y: (BOARD_Y + (2 * row + 1) * SQUARE_SIZE / 2) as i64,
    }
}

/// Centre of a square.
pub fn square_center(row: usize, col: usize) -> (r: V2)
    requires
        row < 8 && col < 8,
    ensures
        r == center_spec(row as int, col as int),
{
    V2::new(
        BOARD_X + (2 * col as i64 + 1) * SQUARE_SIZE / 2,
        BOARD_Y + (2 * row as i64 + 1) * SQUARE_SIZE / 2,
    )
}

/// Side of one square.
pub fn square_scale() -> (r: i64)
    ensures
        r == SQUARE_SIZE,
{
    SQUARE_SIZE
}

/// The outline of a piece, in units of its scale (`UNIT` is one scale).
pub open spec fn piece_outline(piece: u8) -> Seq<V2> {
    if piece == KING {
        seq![V2 { x: 0i64, y: 7000i64 }, V2 { x: -3000i64, y: 3000i64 }, V2 { x: -4000i64, y: 3000i64 }, V2 { x: -4000i64, y: -2000i64 }, V2 { x: -5000i64, y: -2000i64 }, V2 { x: -5000i64, y: -5000i64 }, V2 { x: -6000i64, y: -7000i64 }, V2 { x: 6000i64, y: -7000i64 }, V2 { x: 5000i64, y: -5000i64 }, V2 { x: 5000i64, y: -2000i64 }, V2 { x: 4000i64, y: -2000i64 }, V2 { x: 4000i64, y: 3000i64 }, V2 { x: 3000i64, y: 3000i64 }]
    } else if piece == QUEEN {
        seq![V2 { x: 0i64, y: 8000i64 }, V2 { x: -1500i64, y: 4000i64 }, V2 { x: -3500i64, y: 7000i64 }, V2 { x: -3500i64, y: 3000i64 }, V2 { x: -5000i64, y: -2000i64 }, V2 { x: -6000i64, y: -7000i64 }, V2 { x: 6000i64, y: -7000i64 }, V2 { x: 5000i64, y: -2000i64 }, V2 { x: 3500i64, y: 3000i64 }, V2 { x: 3500i64, y: 7000i64 }, V2 { x: 1500i64, y: 4000i64 }]
    } else if piece == ROOK {
        seq![V2 { x: -4000i64, y: 6000i64 }, V2 { x: -4000i64, y: 4000i64 }, V2 { x: -2000i64, y: 4000i64 }, V2 { x: -2000i64, y: 6000i64 }, V2 { x: 0i64, y: 6000i64 }, V2 { x: 0i64, y: 4000i64 }, V2 { x: 2000i64, y: 4000i64 }, V2 { x: 2000i64, y: 6000i64 }, V2 { x: 4000i64, y: 6000i64 }, V2 { x: 4000i64, y: 4000i64 }, V2 { x: 3000i64, y: 4000i64 }, V2 { x: 3000i64, y: 1000i64 }, V2 { x: 4000i64, y: 1000i64 }, V2 { x: 4000i64, y: -5000i64 }, V2 { x: 5000i64, y: -7000i64 }, V2 { x: -5000i64, y: -7000i64 }, V2 { x: -4000i64, y: -5000i64 }, V2 { x: -4000i64, y: 1000i64 }, V2 { x: -3000i64, y: 1000i64 }, V2 { x: -3000i64, y: 4000i64 }]
    } else if piece == BISHOP {
        seq![V2 { x: 0i64, y: 8000i64 }, V2 { x: -1500i64, y: 5000i64 }, V2 { x: -3000i64, y: 4000i64 }, V2 { x: -2500i64, y: 1000i64 }, V2 { x: -4000i64, y: -3000i64 }, V2 { x: -5000i64, y: -7000i64 }, V2 { x: 5000i64, y: -7000i64 }, V2 { x: 4000i64, y: -3000i64 }, V2 { x: 2500i64, y: 1000i64 }, V2 { x: 3000i64, y: 4000i64 }, V2 { x: 1500i64, y: 5000i64 }]
    } else if piece == KNIGHT {
        seq![V2 { x: -1000i64, y: 7000i64 }, V2 { x: -3000i64, y: 5000i64 }, V2 { x: -4000i64, y: 6000i64 }, V2 { x: -3500i64, y: 3000i64 }, V2 { x: -5000i64, y: 1000i64 }, V2 { x: -3000i64, y: -1000i64 }, V2 { x: -4000i64, y: -5000i64 }, V2 { x: -5000i64, y: -7000i64 }, V2 { x: 5000i64, y: -7000i64 }, V2 { x: 4000i64, y: -5000i64 }, V2 { x: 3000i64, y: -1000i64 }, V2 { x: 4000i64, y: 2000i64 }, V2 { x: 3000i64, y: 4000i64 }, V2 { x: 1500i64, y: 5000i64 }, V2 { x: 2000i64, y: 7000i64 }, V2 { x: 0i64, y: 6000i64 }]
    } else {
        seq![V2 { x: 0i64, y: 6000i64 }, V2 { x: -2000i64, y: 4000i64 }, V2 { x: -1500i64, y: 2000i64 }, V2 { x: -2500i64, y: 0i64 }, V2 { x: -2000i64, y: -3000i64 }, V2 { x: -4000i64, y: -7000i64 }, V2 { x: 4000i64, y: -7000i64 }, V2 { x: 2000i64, y: -3000i64 }, V2 { x: 2500i64, y: 0i64 }, V2 { x: 1500i64, y: 2000i64 }, V2 { x: 2000i64, y: 4000i64 }]
    }
}

/// The outline of a piece; any unknown piece draws as a pawn.
pub fn piece_points(piece: u8) -> (r: Vec<V2>)
    ensures
        r@ == piece_outline(piece),
{
    let r = if piece == KING {
        vec![V2::new(0, 7000), V2::new(-3000, 3000), V2::new(-4000, 3000), V2::new(-4000, -2000), V2::new(-5000, -2000), V2::new(-5000, -5000), V2::new(-6000, -7000), V2::new(6000, -7000), V2::new(5000, -5000), V2::new(5000, -2000), V2::new(4000, -2000), V2::new(4000, 3000), V2::new(3000, 3000)]
    } else if piece == QUEEN {
        vec![V2::new(0, 8000), V2::new(-1500, 4000), V2::new(-3500, 7000), V2::new(-3500, 3000), V2::new(-5000, -2000), V2::new(-6000, -7000), V2::new(6000, -7000), V2::new(5000, -2000), V2::new(3500, 3000), V2::new(3500, 7000), V2::new(1500, 4000)]
    } else if piece == ROOK {
        vec![V2::new(-4000, 6000), V2::new(-4000, 4000), V2::new(-2000, 4000), V2::new(-2000, 6000), V2::new(0, 6000), V2::new(0, 4000), V2::new(2000, 4000), V2::new(2000, 6000), V2::new(4000, 6000), V2::new(4000, 4000), V2::new(3000, 4000), V2::new(3000, 1000), V2::new(4000, 1000), V2::new(4000, -5000), V2::new(5000, -7000), V2::new(-5000, -7000), V2::new(-4000, -5000), V2::new(-4000, 1000), V2::new(-3000, 1000), V2::new(-3000, 4000)]
    } else if piece == BISHOP {
        vec![V2::new(0, 8000), V2::new(-1500, 5000), V2::new(-3000, 4000), V2::new(-2500, 1000), V2::new(-4000, -3000), V2::new(-5000, -7000), V2::new(5000, -7000), V2::new(4000, -3000), V2::new(2500, 1000), V2::new(3000, 4000), V2::new(1500, 5000)]
    } else if piece == KNIGHT {
        vec![V2::new(-1000, 7000), V2::new(-3000, 5000), V2::new(-4000, 6000), V2::new(-3500, 3000), V2::new(-5000, 1000), V2::new(-3000, -1000), V2::new(-4000, -5000), V2::new(-5000, -7000), V2::new(5000, -7000), V2::new(4000, -5000), V2::new(3000, -1000), V2::new(4000, 2000), V2::new(3000, 4000), V2::new(1500, 5000), V2::new(2000, 7000), V2::new(0, 6000)]
    } else {
        vec![V2::new(0, 6000), V2::new(-2000, 4000), V2::new(-1500, 2000), V2::new(-2500, 0), V2::new(-2000, -3000), V2::new(-4000, -7000), V2::new(4000, -7000), V2::new(2000, -3000), V2::new(2500, 0), V2::new(1500, 2000), V2::new(2000, 4000)]
    };
    assert(r@ =~= piece_outline(piece));
    r
}

pub open spec fn placed(center: V2, p: V2, scale: int) -> V2 {
    V2 {
        x: (center.x + trunc_div(p.x * scale, UNIT as int)) as i64,
        y: (center.y + trunc_div(p.y * scale, UNIT as int)) as i64,
    }
}

/// A piece: its outline scaled and placed at `center`; the king also has a
/// cross on top.
pub open spec fn piece_scene(center: V2, piece: u8, scale: int) -> Seq<DrawView> {
    let outline = piece_outline(piece);
    let body = DrawView::Polyline {
        pts: Seq::new(outline.len(), |i: int| placed(center, outline[i], scale)),
        closed: true,
        stroke: white(15),
    };
    if piece == KING {
        seq![
            body,
            line(placed(center, V2 { x: -1_500i64, y: 8_500i64 }, scale), placed(center, V2 { x: 1_500i64, y: 8_500i64 }, scale), 15),
            line(placed(center, V2 { x: 0i64, y: 7_000i64 }, scale), placed(center, V2 { x: 0i64, y: 10_000i64 }, scale), 15),
        ]
    } else {
        seq![body]
    }
}

fn place(center: V2, p: V2, scale: i64) -> (r: V2)
    requires
        -20_000 <= center.x <= 20_000 && -20_000 <= center.y <= 20_000,
        -20_000 <= p.x <= 20_000 && -20_000 <= p.y <= 20_000,
        0 <= scale <= 2_000,
    ensures
        r == placed(center, p, scale as int),
{
    V2::new(center.x + mul_div(p.x, scale, UNIT), center.y + mul_div(p.y, scale, UNIT))
}

pub open spec fn small(p: V2) -> bool {
    -20_000 <= p.x <= 20_000 && -20_000 <= p.y <= 20_000
}

/// Draws a piece at `center`, scaled by `scale / UNIT`.
pub fn draw_piece(out: &mut Vec<DrawCmd>, center: V2, piece: u8, scale: i64)
    requires
        small(center),
        0 <= scale <= 2_000,
    ensures
        views(final(out)@) == views(old(out)@) + piece_scene(center, piece, scale as int),
{
    let ghost start = views(out@);
    let pts = piece_points(piece);
    let ghost outline = pts@;
    assert(forall|i: int| 0 <= i < outline.len() ==> small(#[trigger] outline[i]));
    let mut scaled: Vec<V2> = Vec::new();
    let mut i: usize = 0;
    while i < pts.len()
        invariant
            i <= pts.len(),
            outline == pts@,
            outline == piece_outline(piece),
            forall|k: int| 0 <= k < outline.len() ==> small(#[trigger] outline[k]),
            small(center),
            0 <= scale <= 2_000,
            scaled@ == Seq::new(i as nat, |k: int| placed(center, outline[k], scale as int)),
        decreases pts.len() - i,
    {
        assert(small(outline[i as int]));
        scaled.push(place(center, pts[i], scale));
        i = i + 1;
        assert(scaled@ =~= Seq::new(i as nat, |k: int| placed(center, outline[k], scale as int)));
    }
    emit(out, DrawCmd::Polyline { pts: scaled, closed: true, stroke: Stroke { color: Rgba::white(), width_tenths: 15 } });
    if piece == KING {
        draw_line(out, place(center, V2::new(-1_500, 8_500), scale), place(center, V2::new(1_500, 8_500), scale), 15);
        draw_line(out, place(center, V2::new(0, 7_000), scale), place(center, V2::new(0, 10_000), scale), 15);
    }
    assert(views(out@) =~= start + piece_scene(center, piece, scale as int));
}

pub open spec fn corner(x: int, y: int) -> V2 {
    V2 { x: (BOARD_X + x) as i64, y: (BOARD_Y + y) as i64 }
}

/// Grid line `k`: the vertical (even `k`) or horizontal (odd `k`) line
/// `k / 2 + 1` squares in from the edge.
pub open spec fn grid_line(k: int) -> DrawView {
    let off = (k / 2 + 1) * SQUARE_SIZE;
    if k % 2 == 0 {
        line(corner(off, 0), corner(off, BOARD_SIZE as int), 10)
    } else {
        line(corner(0, off), corner(BOARD_SIZE as int, off), 10)
    }
}

/// Dot `k` of the five-by-five pattern on a dark square.
pub open spec fn dot(row: int, col: int, k: int) -> DrawView {
    let c = center_spec(row, col);
    let p = V2 { x: (c.x - 650 + (k % 5) * 325) as i64, y: (c.y - 650 + (k / 5) * 325) as i64 };
    line(p, V2 { x: (p.x + 30) as i64, y: p.y }, 15)
}

pub open spec fn square_dots(row: int, col: int) -> Seq<DrawView> {
    if (row + col) % 2 == 1 { Seq::new(25, |k: int| dot(row, col, k)) } else { seq![] }
}

/// The dots of the first `n` squares, row by row.
pub open spec fn dots_upto(n: int) -> Seq<DrawView>
    decreases n,
{
    if n <= 0 { seq![] } else { dots_upto(n - 1) + square_dots((n - 1) / 8, (n - 1) % 8) }
}

/// The board: its outline, the grid, and dotted dark squares.
pub open spec fn board_scene() -> Seq<DrawView> {
    seq![
        DrawView::Polyline {
            pts: seq![corner(0, 0), corner(BOARD_SIZE as int, 0), corner(BOARD_SIZE as int, BOARD_SIZE as int), corner(0, BOARD_SIZE as int)],
            closed: true,
            stroke: white(20),
        },
    ] + Seq::new(14, |k: int| grid_line(k)) + dots_upto(64)
}

/// Draws the board.
pub fn render_board(out: &mut Vec<DrawCmd>)
    ensures
        views(final(out)@) == views(old(out)@) + board_scene(),
{
    let ghost start = views(out@);
    let corners = vec![
        V2::new(BOARD_X, BOARD_Y),
        V2::new(BOARD_X + BOARD_SIZE, BOARD_Y),
        V2::new(BOARD_X + BOARD_SIZE, BOARD_Y + BOARD_SIZE),
        V2::new(BOARD_X, BOARD_Y + BOARD_SIZE),
    ];
    assert(corners@ =~= seq![corner(0, 0), corner(BOARD_SIZE as int, 0), corner(BOARD_SIZE as int, BOARD_SIZE as int), corner(0, BOARD_SIZE as int)]);
    emit(out, DrawCmd::Polyline { pts: corners, closed: true, stroke: Stroke { color: Rgba::white(), width_tenths: 20 } });
    let ghost g0 = views(out@);
    let mut k: i64 = 0;
    while k < 14
        invariant
            0 <= k <= 14,
            views(out@) == g0 + Seq::new(k as nat, |j: int| grid_line(j)),
        decreases 14 - k,
    {
        let off = (k / 2 + 1) * SQUARE_SIZE;
        if k % 2 == 0 {
            draw_line(out, V2::new(BOARD_X + off, BOARD_Y), V2::new(BOARD_X + off, BOARD_Y + BOARD_SIZE), 10);
        } else {
            draw_line(out, V2::new(BOARD_X, BOARD_Y + off), V2::new(BOARD_X + BOARD_SIZE, BOARD_Y + off), 10);
        }
        k = k + 1;
        assert(views(out@) =~= g0 + Seq::new(k as nat, |j: int| grid_line(j)));
    }
    let ghost d0 = views(out@);
    let mut sq: usize = 0;
    while sq < 64
        invariant
            sq <= 64,
            views(out@) == d0 + dots_upto(sq as int),
        decreases 64 - sq,
    {
        let row = sq / 8;
        let col = sq % 8;
        let ghost before = views(out@);
        if (row + col) % 2 == 1 {
            let c = square_center(row, col);
            let mut d: i64 = 0;
            while d < 25
                invariant
                    0 <= d <= 25,
                    row < 8 && col < 8,
                    c == center_spec(row as int, col as int),
                    views(out@) == before + Seq::new(d as nat, |j: int| dot(row as int, col as int, j)),
                decreases 25 - d,
            {
                let p = V2::new(c.x - 650 + (d % 5) * 325, c.y - 650 + (d / 5) * 325);
                draw_line(out, p, V2::new(p.x + 30, p.y), 15);
                d = d + 1;
                assert(views(out@) =~= before + Seq::new(d as nat, |j: int| dot(row as int, col as int, j)));
            }
        }
        assert(views(out@) =~= before + square_dots(row as int, col as int));
        sq = sq + 1;
        assert(views(out@) =~= d0 + dots_upto(sq as int));
    }
    assert(views(out@) =~= start + board_scene());
}

pub open spec fn file_char(i: int) -> char {
    if i == 0 { 'A' } else if i == 1 { 'B' } else if i == 2 { 'C' } else if i == 3 { 'D' }
    else if i == 4 { 'E' } else if i == 5 { 'F' } else if i == 6 { 'G' } else { 'H' }
}

fn file_letter(i: i64) -> (c: char)
    ensures
        c == file_char(i as int),
{
    if i == 0 { 'A' } else if i == 1 { 'B' } else if i == 2 { 'C' } else if i == 3 { 'D' }
    else if i == 4 { 'E' } else if i == 5 { 'F' } else if i == 6 { 'G' } else { 'H' }
}

pub open spec fn text_at(x: int, y: int, text: Seq<char>, size_px: u32) -> DrawView {
    DrawView::Text { pos: V2 { x: x as i64, y: y as i64 }, text, size_px, color: Rgba::white_spec() }
}

/// Label `k`: the file letters below the board (`k < 8`), then the rank
/// numbers to its left.
pub open spec fn board_label(k: int) -> DrawView {
    if k < 8 {
        text_at(BOARD_X + (100 * k + 35) * SQUARE_SIZE / 100, BOARD_Y - 1_200, seq![file_char(k)], 32)
    } else {
        text_at(BOARD_X - 1_200, BOARD_Y + (100 * (k - 8) + 25) * SQUARE_SIZE / 100, crate::draw::decimal_spec((k - 7) as nat), 32)
    }
}

/// Draws the file letters and rank numbers.
pub fn render_labels(out: &mut Vec<DrawCmd>)
    ensures
        views(final(out)@) == views(old(out)@) + Seq::new(16, |k: int| board_label(k)),
{
    let ghost start = views(out@);
    let mut k: i64 = 0;
    while k < 16
        invariant
            0 <= k <= 16,
            views(out@) == start + Seq::new(k as nat, |j: int| board_label(j)),
        decreases 16 - k,
    {
        if k < 8 {
            let t = vec![file_letter(k)];
            assert(t@ =~= seq![file_char(k as int)]);
            emit(out, DrawCmd::Text { pos: V2::new(BOARD_X + (100 * k + 35) * SQUARE_SIZE / 100, BOARD_Y - 1_200), text: t, size_px: 32, color: Rgba::white() });
        } else {
            let t = crate::draw::decimal((k - 7) as u32);
            emit(out, DrawCmd::Text { pos: V2::new(BOARD_X - 1_200, BOARD_Y + (100 * (k - 8) + 25) * SQUARE_SIZE / 100), text: t, size_px: 32, color: Rgba::white() });
        }
        k = k + 1;
        assert(views(out@) =~= start + Seq::new(k as nat, |j: int| board_label(j)));
    }
}

pub open spec fn title_scene() -> Seq<DrawView> {
    seq![text_at(-7_000, 6_800, "IBM 2250 STATIC DEMO"@, 40)]
}

/// Draws the title.
pub fn render_title(out: &mut Vec<DrawCmd>)
    ensures
        views(final(out)@) == views(old(out)@) + title_scene(),
{
    let ghost start = views(out@);
    emit(out, DrawCmd::Text { pos: V2::new(-7_000, 6_800), text: text_of("IBM 2250 STATIC DEMO"), size_px: 40, color: Rgba::white() });
    assert(views(out@) =~= start + title_scene());
}

/// The back row, from file A.
pub open spec fn back_piece(col: int) -> u8 {
    if col == 0 || col == 7 { ROOK } else if col == 1 || col == 6 { KNIGHT }
    else if col == 2 || col == 5 { BISHOP } else if col == 3 { QUEEN } else { KING }
}

fn back_row_piece(col: usize) -> (r: u8)
    ensures
        r == back_piece(col as int),
{
    if col == 0 || col == 7 { ROOK } else if col == 1 || col == 6 { KNIGHT }
    else if col == 2 || col == 5 { BISHOP } else if col == 3 { QUEEN } else { KING }
}

/// Piece `k` of the starting position: White's back row, White's pawns,
/// Black's back row, Black's pawns, each from file A.
pub open spec fn placement(k: int) -> Seq<DrawView> {
    let g = k / 8;
    let col = k % 8;
    let row = if g == 0 { 0 } else if g == 1 { 1 } else if g == 2 { 7 } else { 6 };
    let back = g == 0 || g == 2;
    piece_scene(
        center_spec(row, col),
        if back { back_piece(col) } else { PAWN },
        if back { PIECE_SCALE as int } else { PAWN_SCALE as int },
    )
}

pub open spec fn pieces_upto(n: int) -> Seq<DrawView>
    decreases n,
{
    if n <= 0 { seq![] } else { pieces_upto(n - 1) + placement(n - 1) }
}

/// Draws all pieces in their starting places.
pub fn render_pieces(out: &mut Vec<DrawCmd>)
    ensures
        views(final(out)@) == views(old(out)@) + pieces_upto(32),
{
    let ghost start = views(out@);
    let mut k: usize = 0;
    while k < 32
        invariant
            k <= 32,
            views(out@) == start + pieces_upto(k as int),
        decreases 32 - k,
    {
        let g = k / 8;
        let col = k % 8;
        let row: usize = if g == 0 { 0 } else if g == 1 { 1 } else if g == 2 { 7 } else { 6 };
        let back = g == 0 || g == 2;
        let piece = if back { back_row_piece(col) } else { PAWN };
        let scale = if back { PIECE_SCALE } else { PAWN_SCALE };
        draw_piece(out, square_center(row, col), piece, scale);
        k = k + 1;
        assert(views(out@) =~= start + pieces_upto(k as int));
    }
}

/// The chess board demo: nothing moves.
pub struct ChessDemo {}

/// The picture: the screen cleared, the title, the board, the pieces and
/// the labels.
pub open spec fn chess_scene() -> Seq<DrawView> {
    seq![DrawView::Clear { color: Rgba::black_spec() }] + title_scene() + board_scene() + pieces_upto(32)
        + Seq::new(16, |k: int| board_label(k))
}

impl ChessDemo {
    pub fn new() -> (r: ChessDemo) {
        ChessDemo {}
    }

    /// The draw commands of the picture, the same on every call.
    pub fn render(&self) -> (out: Vec<DrawCmd>)
        ensures
            views(out@) == chess_scene(),
    {
        let mut out: Vec<DrawCmd> = Vec::new();
        emit(&mut out, DrawCmd::Clear { color: Rgba::black() });
        render_title(&mut out);
        render_board(&mut out);
        render_pieces(&mut out);
        render_labels(&mut out);
        assert(views(out@) =~= chess_scene());
        out
    }
}

} // verus!
