use chess_gui::geom::{
    grid_ops, on_board, tile_coord, tile_origin, tile_shade, TileShade, GRID_CELL_SIZE, GRID_SIZE,
    SCREEN_HEIGHT, SCREEN_WIDTH,
};

#[test]
fn constants_match_the_window() {
    assert_eq!(GRID_SIZE, 8);
    assert_eq!(GRID_CELL_SIZE, 90);
    assert_eq!(SCREEN_WIDTH, 1060);
    assert_eq!(SCREEN_HEIGHT, 720);
}

#[test]
fn tile_coord_floors_inside_the_window() {
    assert_eq!(tile_coord(0), 0);
    assert_eq!(tile_coord(89), 0);
    assert_eq!(tile_coord(90), 1);
    assert_eq!(tile_coord(179), 1);
    assert_eq!(tile_coord(719), 7);
    assert_eq!(tile_coord(720), 8);
    assert_eq!(tile_coord(1059), 11);
}

#[test]
fn tile_coord_floors_left_of_the_window() {
    assert_eq!(tile_coord(-1), -1);
    assert_eq!(tile_coord(-89), -1);
    assert_eq!(tile_coord(-90), -1);
    assert_eq!(tile_coord(-91), -2);
    assert_eq!(tile_coord(-180), -2);
    assert_eq!(tile_coord(-181), -3);
}

#[test]
fn on_board_accepts_exactly_the_grid() {
    assert!(on_board(0, 0));
    assert!(on_board(7, 7));
    assert!(!on_board(8, 0));
    assert!(!on_board(0, 8));
    assert!(!on_board(-1, 0));
    assert!(!on_board(0, -1));
}

#[test]
fn shades_alternate() {
    assert_eq!(tile_shade(0, 0), TileShade::Black);
    assert_eq!(tile_shade(0, 1), TileShade::White);
    assert_eq!(tile_shade(1, 0), TileShade::White);
    assert_eq!(tile_shade(1, 1), TileShade::Black);
    assert_eq!(tile_shade(7, 7), TileShade::Black);
}

#[test]
fn tile_origin_scales_by_cell_size() {
    assert_eq!(tile_origin(0, 0), (0, 0));
    assert_eq!(tile_origin(3, 2), (270, 180));
    assert_eq!(tile_origin(7, 7), (630, 630));
}

#[test]
fn grid_ops_lists_all_tiles_row_by_row() {
    let g = grid_ops();
    assert_eq!(g.len(), 64);
    assert_eq!(g[0], (TileShade::Black, 0, 0));
    assert_eq!(g[1], (TileShade::White, 90, 0));
    assert_eq!(g[8], (TileShade::White, 0, 90));
    assert_eq!(g[9], (TileShade::Black, 90, 90));
    assert_eq!(g[63], (TileShade::Black, 630, 630));
    for (k, op) in g.iter().enumerate() {
        let row = (k / 8) as i64;
        let col = (k % 8) as i64;
        assert_eq!(op.1, 90 * col);
        assert_eq!(op.2, 90 * row);
        let expect = if row % 2 == col % 2 { TileShade::Black } else { TileShade::White };
        assert_eq!(op.0, expect);
    }
}
