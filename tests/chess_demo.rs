use vectorcade::chess_demo::{draw_piece, piece_points, square_center, ChessDemo, KING, PAWN};
use vectorcade::draw::DrawCmd;
use vectorcade::geom::V2;

#[test]
fn chess_demo_renders() {
    let g = ChessDemo::new();
    let cmds = g.render();
    assert!(!cmds.is_empty(), "should generate draw commands");
    // Should have Clear, board lines, dots, pieces, labels
    assert!(cmds.len() > 100, "should have many draw commands for full board");
}

#[test]
fn chess_demo_renders_the_same_picture_each_time() {
    let g = ChessDemo::new();
    assert_eq!(format!("{:?}", g.render()), format!("{:?}", g.render()));
    // clear, title, outline, 14 grid lines, 32 dark squares of 25 dots,
    // 32 pieces and the king's two crosses, 16 labels
    assert_eq!(g.render().len(), 1 + 1 + 1 + 14 + 32 * 25 + 32 + 4 + 16);
}

#[test]
fn chess_square_centres() {
    assert_eq!(square_center(0, 0), V2::new(-4_688, -6_688));
    assert_eq!(square_center(7, 7), V2::new(6_687, 4_687));
}

#[test]
fn chess_piece_is_scaled_and_placed() {
    assert_eq!(piece_points(PAWN)[0], V2::new(0, 6_000));
    let mut out = Vec::new();
    draw_piece(&mut out, V2::new(1_000, 1_000), PAWN, 500);
    match &out[0] {
        DrawCmd::Polyline { pts, closed, .. } => {
            assert!(*closed);
            assert_eq!(pts[0], V2::new(1_000, 1_300));
        }
        _ => panic!("outline expected"),
    }
    let mut out = Vec::new();
    draw_piece(&mut out, V2::new(0, 0), KING, 500);
    assert_eq!(out.len(), 3);
}
