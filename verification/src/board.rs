//! The data this layer reads from the rules engine: colours, piece kinds,
//! game states, validated board positions, and the flat 64-cell board
//! snapshot.

use vstd::prelude::*;
use crate::geom::spec_on_board;

verus! {

/// The two player colours, as the rules engine names them.
#[derive(Clone, Copy, PartialEq, Eq, Structural, Debug, Hash)]
pub enum Colour {
    White,
    Black,
}

/// The six piece kinds, as the rules engine names them.
#[derive(Clone, Copy, PartialEq, Eq, Structural, Debug, Hash)]
pub enum PieceType {
    King,
    Queen,
    Rook,
    Pawn,
    Bishop,
    Knight,
}

/// A piece on the board: a colour and a kind.
#[derive(Clone, Copy, PartialEq, Eq, Structural, Debug, Hash)]
pub struct Piece {
    pub colour: Colour,
    pub piece_type: PieceType,
}

/// The game states the rules engine reports.
#[derive(Clone, Copy, PartialEq, Eq, Structural, Debug)]
pub enum GameState {
    InProgress,
    Check,
    GameOver,
}

/// The one way a position construction fails: a coordinate outside [0, 8).
#[derive(Clone, Copy, PartialEq, Eq, Structural, Debug)]
pub enum PositionError {
    OutOfRange,
}

/// A board position: a row and a column, valid only when both lie in [0, 8).
#[derive(Clone, Copy, PartialEq, Eq, Structural, Debug)]
pub struct Position {
    pub row: usize,
    pub col: usize,
}

impl Position {
    /// Both coordinates lie on the board.
    pub open spec fn wf(self) -> bool {
        self.row < 8 && self.col < 8
    }

    /// Builds a position, rejecting any coordinate outside [0, 8).
    pub fn new(row: usize, col: usize) -> (r: Result<Position, PositionError>)
        ensures
            row < 8 && col < 8 ==> r == Ok::<Position, PositionError>(Position { row, col }),
            !(row < 8 && col < 8) ==> r == Err::<Position, PositionError>(
                PositionError::OutOfRange,
            ),
            r is Ok ==> r->Ok_0.wf(),
    {
        if row < 8 && col < 8 {
            Ok(Position { row, col })
        } else {
            Err(PositionError::OutOfRange)
        }
    }
}

/// The piece standing on a tile of the flat 64-cell board snapshot, which
/// stores the tile at row `row` and column `col` at index `row * 8 + col`.
pub fn piece_at(board: &Vec<Option<Piece>>, col: i64, row: i64) -> (p: Option<Piece>)
    requires
        board@.len() == 64,
        spec_on_board(col as int, row as int),
    ensures
        p == board@[row * 8 + col],
{
    board[(row * 8 + col) as usize]
}

} // verus!
