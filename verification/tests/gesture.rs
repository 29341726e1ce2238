use chess_gui::app::App;
use chess_gui::board::{piece_at, Colour, Piece, PieceType, Position};

fn empty_board() -> Vec<Option<Piece>> {
    vec![None; 64]
}

fn pawn(colour: Colour) -> Piece {
    Piece { colour, piece_type: PieceType::Pawn }
}

#[test]
fn a_fresh_viewer_is_idle() {
    let a = App::new();
    assert_eq!(a.mouse_x, 0);
    assert_eq!(a.mouse_y, 0);
    assert!(!a.left_click);
    assert!(a.move_piece.is_none());
}

#[test]
fn on_tile_follows_the_mouse() {
    let mut a = App::new();
    a.set_mouse(451, 269);
    assert_eq!(a.on_tile(), (5, 2));
    a.set_mouse(-30, 800);
    assert_eq!(a.on_tile(), (-1, 8));
}

#[test]
fn piece_at_reads_the_flat_snapshot() {
    let mut board = empty_board();
    board[2 * 8 + 6] = Some(pawn(Colour::White));
    assert_eq!(piece_at(&board, 6, 2), Some(pawn(Colour::White)));
    assert_eq!(piece_at(&board, 2, 6), None);
}

#[test]
fn a_press_over_a_piece_grabs_it() {
    let mut a = App::new();
    let mut board = empty_board();
    board[0] = Some(pawn(Colour::White));
    a.set_mouse(10, 10);
    a.on_press();
    let ops = a.piece_ops(&board);
    assert!(!a.left_click);
    assert_eq!(a.move_piece, Some((0, 0)));
    assert_eq!(ops.len(), 1);
    assert!(ops[0].at_mouse);
    assert_eq!(ops[0].piece, pawn(Colour::White));
}

#[test]
fn a_press_over_an_empty_tile_keeps_waiting() {
    let mut a = App::new();
    let mut board = empty_board();
    board[63] = Some(pawn(Colour::Black));
    a.set_mouse(10, 10);
    a.on_press();
    let ops = a.piece_ops(&board);
    assert!(a.left_click);
    assert_eq!(a.move_piece, None);
    assert_eq!(ops.len(), 1);
    assert!(!ops[0].at_mouse);
    assert_eq!((ops[0].col, ops[0].row), (7, 7));
}

#[test]
fn a_dragged_piece_keeps_following_the_mouse() {
    let mut a = App::new();
    let mut board = empty_board();
    board[3 * 8 + 4] = Some(pawn(Colour::Black));
    a.move_piece = Some((4, 3));
    a.set_mouse(700, 100);
    let ops = a.piece_ops(&board);
    assert_eq!(a.move_piece, Some((4, 3)));
    assert!(!a.left_click);
    assert_eq!(ops.len(), 1);
    assert!(ops[0].at_mouse);
}

#[test]
fn the_scan_order_decides_between_click_and_drag() {
    // A piece is already dragged from an early tile while a fresh click
    // rests on a later occupied tile: the scan reaches the dragged tile
    // first, so the click is consumed without grabbing.
    let mut a = App::new();
    let mut board = empty_board();
    board[2] = Some(pawn(Colour::White)); // tile (2, 0)
    board[5 * 8 + 1] = Some(pawn(Colour::Black)); // tile (1, 5)
    a.move_piece = Some((2, 0));
    a.left_click = true;
    a.set_mouse(1 * 90 + 5, 5 * 90 + 5);
    let ops = a.piece_ops(&board);
    assert_eq!(a.move_piece, Some((2, 0)));
    assert!(!a.left_click);
    assert_eq!(ops.len(), 2);
    assert!(ops[0].at_mouse);
    assert!(!ops[1].at_mouse);

    // The other way round: the clicked tile comes first in the scan, so
    // the click wins and the drag moves to it.
    let mut b = App::new();
    let mut board2 = empty_board();
    board2[2] = Some(pawn(Colour::White)); // tile (2, 0)
    board2[5 * 8 + 1] = Some(pawn(Colour::Black)); // tile (1, 5)
    b.move_piece = Some((1, 5));
    b.left_click = true;
    b.set_mouse(2 * 90 + 5, 5);
    let ops2 = b.piece_ops(&board2);
    assert_eq!(b.move_piece, Some((2, 0)));
    assert!(!b.left_click);
    assert_eq!(ops2.len(), 2);
    assert!(ops2[0].at_mouse);
    assert!(!ops2[1].at_mouse);
}

#[test]
fn a_release_forwards_the_move_and_clears_the_drag() {
    let mut a = App::new();
    let mut board = empty_board();
    board[0] = Some(pawn(Colour::White));
    a.set_mouse(10, 10);
    a.on_press();
    a.piece_ops(&board);
    a.set_mouse(4 * 90 + 20, 6 * 90 + 20);
    a.piece_ops(&board);
    let mv = a.on_release();
    assert_eq!(
        mv,
        Some((
            Position { row: 0, col: 0 },
            Position { row: 6, col: 4 },
        ))
    );
    assert_eq!(a.move_piece, None);
}

#[test]
fn a_release_without_a_drag_does_nothing() {
    let mut a = App::new();
    a.set_mouse(100, 100);
    let mv = a.on_release();
    assert_eq!(mv, None);
    assert_eq!(a.move_piece, None);
}
