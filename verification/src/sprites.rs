//! The sprite table: which image file shows each piece.

use vstd::prelude::*;
use crate::board::{Colour, Piece, PieceType};

verus! {

/// The image file for a piece: its colour then its kind.
pub open spec fn spec_sprite_path(p: Piece) -> Seq<char> {
    match (p.colour, p.piece_type) {
        (Colour::Black, PieceType::King) => "resources/black_king.png"@,
        (Colour::Black, PieceType::Queen) => "resources/black_queen.png"@,
        (Colour::Black, PieceType::Rook) => "resources/black_rook.png"@,
        (Colour::Black, PieceType::Pawn) => "resources/black_pawn.png"@,
        (Colour::Black, PieceType::Bishop) => "resources/black_bishop.png"@,
        (Colour::Black, PieceType::Knight) => "resources/black_knight.png"@,
        (Colour::White, PieceType::King) => "resources/white_king.png"@,
        (Colour::White, PieceType::Queen) => "resources/white_queen.png"@,
        (Colour::White, PieceType::Rook) => "resources/white_rook.png"@,
        (Colour::White, PieceType::Pawn) => "resources/white_pawn.png"@,
        (Colour::White, PieceType::Bishop) => "resources/white_bishop.png"@,
        (Colour::White, PieceType::Knight) => "resources/white_knight.png"@,
    }
}

/// The image file that shows a piece.
pub fn sprite_path(p: Piece) -> (r: &'static str)
    ensures
        r@ == spec_sprite_path(p),
{
    match (p.colour, p.piece_type) {
        (Colour::Black, PieceType::King) => "resources/black_king.png",
        (Colour::Black, PieceType::Queen) => "resources/black_queen.png",
        (Colour::Black, PieceType::Rook) => "resources/black_rook.png",
        (Colour::Black, PieceType::Pawn) => "resources/black_pawn.png",
        (Colour::Black, PieceType::Bishop) => "resources/black_bishop.png",
        (Colour::Black, PieceType::Knight) => "resources/black_knight.png",
        (Colour::White, PieceType::King) => "resources/white_king.png",
        (Colour::White, PieceType::Queen) => "resources/white_queen.png",
        (Colour::White, PieceType::Rook) => "resources/white_rook.png",
        (Colour::White, PieceType::Pawn) => "resources/white_pawn.png",
        (Colour::White, PieceType::Bishop) => "resources/white_bishop.png",
        (Colour::White, PieceType::Knight) => "resources/white_knight.png",
    }
}

/// The piece at an index of the sprite table: the six black pieces first,
/// then the six white ones, each in the order king, queen, rook, pawn,
/// bishop, knight.
pub open spec fn spec_nth_piece(i: int) -> Piece {
    Piece {
        colour: if i < 6 {
            Colour::Black
        } else {
            Colour::White
        },
        piece_type: if i % 6 == 0 {
            PieceType::King
        } else if i % 6 == 1 {
            PieceType::Queen
        } else if i % 6 == 2 {
            PieceType::Rook
        } else if i % 6 == 3 {
            PieceType::Pawn
        } else if i % 6 == 4 {
            PieceType::Bishop
        } else {
            PieceType::Knight
        },
    }
}

/// The piece at an index of the sprite table.
pub fn nth_piece(i: usize) -> (p: Piece)
    requires
        i < 12,
    ensures
        p == spec_nth_piece(i as int),
{
    let colour = if i < 6 {
        Colour::Black
    } else {
        Colour::White
    };
    let piece_type = if i % 6 == 0 {
        PieceType::King
    } else if i % 6 == 1 {
        PieceType::Queen
    } else if i % 6 == 2 {
        PieceType::Rook
    } else if i % 6 == 3 {
        PieceType::Pawn
    } else if i % 6 == 4 {
        PieceType::Bishop
    } else {
        PieceType::Knight
    };
    Piece { colour, piece_type }
}

/// The whole sprite table: all twelve pieces, each beside its image file.
pub fn sprite_table() -> (t: Vec<(Piece, &'static str)>)
    ensures
        t@.len() == 12,
        forall|i: int|
            0 <= i < 12 ==> (#[trigger] t@[i]).0 == spec_nth_piece(i) && t@[i].1@
                == spec_sprite_path(spec_nth_piece(i)),
{
    let mut t: Vec<(Piece, &'static str)> = Vec::new();
    for i in 0..12
        invariant
            t@.len() == i,
            forall|j: int|
                0 <= j < i ==> (#[trigger] t@[j]).0 == spec_nth_piece(j) && t@[j].1@
                    == spec_sprite_path(spec_nth_piece(j)),
    {
        let p = nth_piece(i);
        t.push((p, sprite_path(p)));
    }
    t
}

} // verus!
