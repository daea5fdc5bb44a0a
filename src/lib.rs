//! A two-player tic-tac-toe engine: the board, move validation, turn
//! alternation and win/draw detection, with contracts proved by Verus.

pub mod board;
pub mod mark;
pub mod render;
pub mod game;
pub mod laws;
pub mod play;
