//! The viewer's state: the mouse, the left-click latch and the tile being
//! dragged, together with the event handlers and the per-frame piece pass
//! that decide everything the renderer draws.

use vstd::prelude::*;
use vstd::arithmetic::div_mod::lemma_fundamental_div_mod;
use crate::board::{Piece, Position};
use crate::geom::{spec_on_board, tile_coord};

verus! {

/// One sprite to draw: a piece, the tile it stands on, and whether it is
/// drawn following the mouse (being dragged) instead of at its tile.
#[derive(Clone, Copy, PartialEq, Eq, Structural, Debug)]
pub struct SpriteOp {
    pub piece: Piece,
    pub col: i64,
    pub row: i64,
    pub at_mouse: bool,
}

/// Whether a tile of the flat 64-cell board snapshot holds a piece.
pub open spec fn spec_occ(board: Seq<Option<Piece>>, col: int, row: int) -> bool {
    board[row * 8 + col] is Some
}

/// The viewer state that outlives a frame: the last seen mouse position in
/// pixels, whether a left press is waiting to grab a piece, and the tile of
/// the piece currently dragged, if any.
pub struct App {
    pub mouse_x: i64,
    pub mouse_y: i64,
    pub left_click: bool,
    pub move_piece: Option<(i64, i64)>,
}

impl App {
    /// A dragged tile, when there is one, lies on the board.
    pub open spec fn wf(self) -> bool {
        match self.move_piece {
            Some(t) => spec_on_board(t.0 as int, t.1 as int),
            None => true,
        }
    }

    /// The tile under the mouse, as (column, row).
    pub open spec fn spec_mouse_tile(self) -> (int, int) {
        (self.mouse_x as int / 90, self.mouse_y as int / 90)
    }

    /// Whether a waiting left press grabs a piece this pass: the mouse is
    /// over a board tile that holds one.
    pub open spec fn spec_grab(self, board: Seq<Option<Piece>>) -> bool {
        let mt = self.spec_mouse_tile();
        self.left_click && spec_on_board(mt.0, mt.1) && spec_occ(board, mt.0, mt.1)
    }

    /// Whether the tile already being dragged still holds a piece this pass.
    pub open spec fn spec_drag_fires(self, board: Seq<Option<Piece>>) -> bool {
        match self.move_piece {
            Some(t) => spec_on_board(t.0 as int, t.1 as int) && spec_occ(
                board,
                t.0 as int,
                t.1 as int,
            ),
            None => false,
        }
    }

    /// The one tile whose piece this pass draws at the mouse: of the tile a
    /// waiting click would grab and the tile already being dragged, the one
    /// the row-major scan reaches first; no tile when neither applies.
    pub open spec fn spec_firer(self, board: Seq<Option<Piece>>) -> Option<(int, int)> {
        let a = self.spec_mouse_tile();
        match self.move_piece {
            Some(t) => {
                let b = (t.0 as int, t.1 as int);
                if self.spec_grab(board) && self.spec_drag_fires(board) {
                    if b.1 * 8 + b.0 <= a.1 * 8 + a.0 {
                        Some(b)
                    } else {
                        Some(a)
                    }
                } else if self.spec_grab(board) {
                    Some(a)
                } else if self.spec_drag_fires(board) {
                    Some(b)
                } else {
                    None
                }
            },
            None => if self.spec_grab(board) {
                Some(a)
            } else {
                None
            },
        }
    }

    /// A fresh viewer: mouse at the origin, no click waiting, no drag.
    pub fn new() -> (a: App)
        ensures
            a == (App { mouse_x: 0, mouse_y: 0, left_click: false, move_piece: None }),
            a.wf(),
    {
        App { mouse_x: 0, mouse_y: 0, left_click: false, move_piece: None }
    }

    /// The tile the mouse is over, as (column, row).
    pub fn on_tile(&self) -> (t: (i64, i64))
        ensures
            t.0 == self.spec_mouse_tile().0,
            t.1 == self.spec_mouse_tile().1,
    {
        (tile_coord(self.mouse_x), tile_coord(self.mouse_y))
    }

    /// Records the pointer position a mouse-move event hands over.
    pub fn set_mouse(&mut self, x: i64, y: i64)
        ensures
            final(self).mouse_x == x,
            final(self).mouse_y == y,
            final(self).left_click == old(self).left_click,
            final(self).move_piece == old(self).move_piece,
    {
        self.mouse_x = x;
        self.mouse_y = y;
    }

    /// Latches a left press; the next piece pass decides whether it grabs a
    /// piece.
    pub fn on_press(&mut self)
        ensures
            final(self).mouse_x == old(self).mouse_x,
            final(self).mouse_y == old(self).mouse_y,
            final(self).left_click,
            final(self).move_piece == old(self).move_piece,
    {
        self.left_click = true;
    }

    /// Ends a drag on a left release: when a piece is being dragged, clears
    /// the drag and returns the move to forward to the rules engine, from
    /// the dragged tile to the tile now under the mouse; otherwise nothing
    /// changes and no move is made.
    pub fn on_release(&mut self) -> (mv: Option<(Position, Position)>)
        requires
            old(self).wf(),
            old(self).move_piece is Some ==> spec_on_board(
                old(self).spec_mouse_tile().0,
                old(self).spec_mouse_tile().1,
            ),
        ensures
            final(self).wf(),
            final(self).mouse_x == old(self).mouse_x,
            final(self).mouse_y == old(self).mouse_y,
            final(self).left_click == old(self).left_click,
            final(self).move_piece is None,
            match old(self).move_piece {
                Some(t) => mv == Some(
                    (
                        (Position { row: t.1 as usize, col: t.0 as usize }),
                        (
                            Position {
                                row: old(self).spec_mouse_tile().1 as usize,
                                col: old(self).spec_mouse_tile().0 as usize,
                            }
                        ),
                    ),
                ),
                None => mv is None,
            },
    {
        match self.move_piece {
            Some(pos) => {
                let mouse_tile = self.on_tile();
                let from = Position::new(pos.1 as usize, pos.0 as usize).ok().unwrap();
                let to = Position::new(mouse_tile.1 as usize, mouse_tile.0 as usize).ok().unwrap();
                self.move_piece = None;
                Some((from, to))
            },
            None => None,
        }
    }
}

/// The sprite list the piece pass emits for the first `k` tiles of the
/// row-major scan, when `firer` is the tile drawn at the mouse.
pub open spec fn spec_piece_ops(
    board: Seq<Option<Piece>>,
    firer: Option<(int, int)>,
    k: int,
) -> Seq<SpriteOp>
    decreases k,
{
    if k <= 0 {
        Seq::empty()
    } else {
        spec_piece_ops(board, firer, k - 1) + match board[k - 1] {
            Some(p) => seq![
                SpriteOp {
                    piece: p,
                    col: ((k - 1) % 8) as i64,
                    row: ((k - 1) / 8) as i64,
                    at_mouse: firer == Some(((k - 1) % 8, (k - 1) / 8)),
                },
            ],
            None => Seq::empty(),
        }
    }
}

/// The tile a firer names lies on the board and holds a piece.
proof fn lemma_firer_on_board(s: App, board: Seq<Option<Piece>>)
    requires
        s.wf(),
    ensures
        match s.spec_firer(board) {
            Some(f) => spec_on_board(f.0, f.1) && spec_occ(board, f.0, f.1),
            None => true,
        },
{
}

/// Every sprite the piece pass emits shows a piece that stands on the board,
/// on the tile the sprite names.
pub proof fn lemma_piece_ops_show_the_board(
    board: Seq<Option<Piece>>,
    firer: Option<(int, int)>,
    k: int,
)
    requires
        0 <= k <= 64,
        board.len() == 64,
    ensures
        forall|i: int|
            0 <= i < spec_piece_ops(board, firer, k).len() ==> {
                let op = #[trigger] spec_piece_ops(board, firer, k)[i];
                spec_on_board(op.col as int, op.row as int) && board[op.row * 8 + op.col]
                    == Some(op.piece)
            },
    decreases k,
{
    if k > 0 {
        lemma_piece_ops_show_the_board(board, firer, k - 1);
        lemma_fundamental_div_mod(k - 1, 8);
        assert((k - 1) / 8 < 8) by (nonlinear_arith)
            requires
                k <= 64,
        ;
    }
}

/// The scan emits its sprites in strictly increasing tile order, so no two
/// sprites share a tile.
proof fn lemma_piece_ops_tiles_increase(
    board: Seq<Option<Piece>>,
    firer: Option<(int, int)>,
    k: int,
)
    requires
        0 <= k <= 64,
        board.len() == 64,
    ensures
        forall|i: int, j: int|
            0 <= i < j < spec_piece_ops(board, firer, k).len() ==> {
                let a = #[trigger] spec_piece_ops(board, firer, k)[i];
                let b = #[trigger] spec_piece_ops(board, firer, k)[j];
                a.row * 8 + a.col < b.row * 8 + b.col && b.row * 8 + b.col < k
            },
        forall|i: int|
            0 <= i < spec_piece_ops(board, firer, k).len() ==> {
                let a = #[trigger] spec_piece_ops(board, firer, k)[i];
                0 <= a.row * 8 + a.col < k
            },
        forall|i: int|
            0 <= i < spec_piece_ops(board, firer, k).len() ==> {
                let a = #[trigger] spec_piece_ops(board, firer, k)[i];
                a.at_mouse == (firer == Some((a.col as int, a.row as int)))
            },
    decreases k,
{
    if k > 0 {
        lemma_piece_ops_tiles_increase(board, firer, k - 1);
        lemma_fundamental_div_mod(k - 1, 8);
        assert((k - 1) / 8 < 8) by (nonlinear_arith)
            requires
                k <= 64,
        ;
        let pre = spec_piece_ops(board, firer, k - 1);
        let ops = spec_piece_ops(board, firer, k);
        assert(forall|i: int| 0 <= i < pre.len() ==> ops[i] == pre[i]);
        if board[k - 1] is Some {
            assert(ops.len() == pre.len() + 1);
            assert(ops[pre.len() as int].row * 8 + ops[pre.len() as int].col == k - 1);
        }
    }
}

/// At most one sprite of a piece pass follows the mouse: two dragged
/// sprites are one and the same.
pub proof fn lemma_at_most_one_dragged(
    board: Seq<Option<Piece>>,
    firer: Option<(int, int)>,
    i: int,
    j: int,
)
    requires
        board.len() == 64,
        0 <= i < spec_piece_ops(board, firer, 64).len(),
        0 <= j < spec_piece_ops(board, firer, 64).len(),
        spec_piece_ops(board, firer, 64)[i].at_mouse,
        spec_piece_ops(board, firer, 64)[j].at_mouse,
    ensures
        i == j,
{
    lemma_piece_ops_tiles_increase(board, firer, 64);
    let ops = spec_piece_ops(board, firer, 64);
    if i < j {
        assert(ops[i].row * 8 + ops[i].col < ops[j].row * 8 + ops[j].col);
        assert(firer == Some((ops[i].col as int, ops[i].row as int)));
        assert(firer == Some((ops[j].col as int, ops[j].row as int)));
    } else if j < i {
        assert(ops[j].row * 8 + ops[j].col < ops[i].row * 8 + ops[i].col);
        assert(firer == Some((ops[i].col as int, ops[i].row as int)));
        assert(firer == Some((ops[j].col as int, ops[j].row as int)));
    }
}

impl App {
    /// The per-frame piece pass of the renderer: scans the board row by row
    /// and emits one sprite per occupied tile, anchored at its tile. The
    /// exception is the firer, emitted anchored at the mouse; reaching it
    /// consumes any waiting click and records it as the dragged tile.
    pub fn piece_ops(&mut self, board: &Vec<Option<Piece>>) -> (ops: Vec<SpriteOp>)
        requires
            old(self).wf(),
            board@.len() == 64,
        ensures
            final(self).wf(),
            final(self).mouse_x == old(self).mouse_x,
            final(self).mouse_y == old(self).mouse_y,
            final(self).left_click == (old(self).left_click && old(self).spec_firer(board@)
                is None),
            final(self).move_piece == (match old(self).spec_firer(board@) {
                Some(f) => Some((f.0 as i64, f.1 as i64)),
                None => old(self).move_piece,
            }),
            ops@ == spec_piece_ops(board@, old(self).spec_firer(board@), 64),
    {
        let mouse_tile = self.on_tile();
        let ghost firer = old(self).spec_firer(board@);
        let mut ops: Vec<SpriteOp> = Vec::new();
        let mut k: usize = 0;
        while k < 64
            invariant
                board@.len() == 64,
                k <= 64,
                self.mouse_x == old(self).mouse_x,
                self.mouse_y == old(self).mouse_y,
                mouse_tile.0 == old(self).spec_mouse_tile().0,
                mouse_tile.1 == old(self).spec_mouse_tile().1,
                firer == old(self).spec_firer(board@),
                old(self).wf(),
                self.wf(),
                self.left_click == (old(self).left_click && !(match firer {
                    Some(f) => f.1 * 8 + f.0 < k,
                    None => false,
                })),
                self.move_piece == (match firer {
                    Some(f) => if f.1 * 8 + f.0 < k {
                        Some((f.0 as i64, f.1 as i64))
                    } else {
                        old(self).move_piece
                    },
                    None => old(self).move_piece,
                }),
                ops@ == spec_piece_ops(board@, firer, k as int),
            decreases 64 - k,
        {
            let col: i64 = (k % 8) as i64;
            let row: i64 = (k / 8) as i64;
            proof {
                lemma_fundamental_div_mod(k as int, 8);
                lemma_firer_on_board(*old(self), board@);
                assert(k as int / 8 < 8) by (nonlinear_arith)
                    requires
                        k < 64,
                ;
                assert(row * 8 + col == k as int);
            }
            if let Some(piece) = board[k] {
                let correct_tile = mouse_tile.0 == col && mouse_tile.1 == row;
                let piece_moving = match self.move_piece {
                    Some(t) => t.0 == col && t.1 == row,
                    None => false,
                };
                if (self.left_click && correct_tile) || piece_moving {
                    proof {
                        assert(firer == Some((col as int, row as int)));
                    }
                    self.left_click = false;
                    self.move_piece = Some((col, row));
                    ops.push(SpriteOp { piece, col, row, at_mouse: true });
                } else {
                    proof {
                        assert(firer != Some((col as int, row as int)));
                    }
                    ops.push(SpriteOp { piece, col, row, at_mouse: false });
                }
            } else {
                proof {
                    assert(firer != Some((col as int, row as int)));
                }
            }
            k = k + 1;
        }
        ops
    }
}

} // verus!
