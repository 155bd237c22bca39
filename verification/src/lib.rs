//! A verified tic-tac-toe engine: the board, the rules of play, and a plain
//! description of what the screen shows for a given state.

pub mod board;
pub mod game;
pub mod view;
pub mod laws;
