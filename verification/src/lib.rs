//! A chess board viewer library: the board geometry, the sprite and text
//! tables, and the mouse drag-to-move state machine, all with contracts.
//! Window setup, OpenGL drawing and the chess rules engine live outside;
//! this crate owns the decisions they plumb.

pub mod app;
pub mod board;
pub mod geom;
pub mod sprites;
pub mod text;
