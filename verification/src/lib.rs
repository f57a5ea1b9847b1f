//! The rules of one Tetris board: the pieces, the board, and how the board
//! answers the events it receives.

pub mod events;
pub mod tetrimino;
pub mod piece;
pub mod game_system;
