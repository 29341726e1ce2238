//! The side-panel and banner texts and where they are anchored, exactly as
//! the viewer prints them.

use vstd::prelude::*;
use vstd::string::StrSliceExecFns;
use crate::board::{Colour, GameState};
use crate::geom::{SCREEN_WIDTH, SCREEN_HEIGHT};

verus! {

/// The game state line for each reported state.
pub open spec fn spec_state_text(s: GameState) -> Seq<char> {
    match s {
        GameState::InProgress => "Game state: InProgress"@,
        GameState::Check => "Game state: Check"@,
        GameState::GameOver => "Game state: GameOver"@,
    }
}

/// The side-panel line naming the current game state.
pub fn state_text(s: GameState) -> (t: &'static str)
    ensures
        t@ == spec_state_text(s),
{
    match s {
        GameState::InProgress => "Game state: InProgress",
        GameState::Check => "Game state: Check",
        GameState::GameOver => "Game state: GameOver",
    }
}

/// The turn line for each colour.
pub open spec fn spec_turn_text(c: Colour) -> Seq<char> {
    match c {
        Colour::White => "Turn: White"@,
        Colour::Black => "Turn: Black"@,
    }
}

/// The side-panel line naming whose turn it is.
pub fn turn_text(c: Colour) -> (t: &'static str)
    ensures
        t@ == spec_turn_text(c),
{
    match c {
        Colour::White => "Turn: White",
        Colour::Black => "Turn: Black",
    }
}

/// The banner for each winning colour.
pub open spec fn spec_gameover_text(c: Colour) -> Seq<char> {
    match c {
        Colour::White => "White is the winner,\n and the winner takes it all!"@,
        Colour::Black => "Black is the winner,\n and the winner takes it all!"@,
    }
}

/// The banner shown once the game is over, naming the winner.
pub fn gameover_text(c: Colour) -> (t: &'static str)
    ensures
        t@ == spec_gameover_text(c),
{
    match c {
        Colour::White => "White is the winner,\n and the winner takes it all!",
        Colour::Black => "Black is the winner,\n and the winner takes it all!",
    }
}

/// Anchor of the game state line: 320 pixels into the side panel, 10 above
/// the bottom edge.
pub fn state_text_pos() -> (p: (i64, i64))
    ensures
        p.0 == SCREEN_WIDTH - 320,
        p.1 == SCREEN_HEIGHT - 10,
{
    (SCREEN_WIDTH - 320, SCREEN_HEIGHT - 10)
}

/// Anchor of the turn line: 30 pixels above the game state line.
pub fn turn_text_pos() -> (p: (i64, i64))
    ensures
        p.0 == SCREEN_WIDTH - 320,
        p.1 == SCREEN_HEIGHT - 40,
{
    (SCREEN_WIDTH - 320, SCREEN_HEIGHT - 40)
}

/// Anchor of the winner banner: the banner, 22 pixels wide per character and
/// 24 tall, is centred on the window.
pub fn gameover_text_pos(len: usize) -> (p: (i64, i64))
    requires
        22 * len <= i64::MAX,
    ensures
        p.0 == SCREEN_WIDTH / 2 - 11 * (len as int),
        p.1 == SCREEN_HEIGHT / 2 - 12,
{
    let l: i64 = len as i64;
    (SCREEN_WIDTH / 2 - 11 * l, SCREEN_HEIGHT / 2 - 12)
}

/// The winner banner to draw and its anchor: present exactly when the game
/// is over, and then naming the active colour as the winner.
pub fn banner_op(s: GameState, active: Colour) -> (b: Option<(&'static str, (i64, i64))>)
    ensures
        (s == GameState::GameOver) <==> b is Some,
        match b {
            Some(t) => t.0@ == spec_gameover_text(active) && t.1.0 == SCREEN_WIDTH / 2 - 11 * 50
                && t.1.1 == SCREEN_HEIGHT / 2 - 12,
            None => true,
        },
{
    match s {
        GameState::GameOver => {
            let text = gameover_text(active);
            proof {
                reveal_strlit("White is the winner,\n and the winner takes it all!");
                reveal_strlit("Black is the winner,\n and the winner takes it all!");
            }
            let pos = gameover_text_pos(text.unicode_len());
            Some((text, pos))
        },
        _ => None,
    }
}

} // verus!
