//! The game-state engine of Ultimate Tic-Tac-Toe: coordinates on the
//! two-level board, the board model with its win and draw rules, turn and
//! click handling, and the hit test that maps a point to a board position.
pub mod board;
pub mod coord;
pub mod game;
pub mod measure;
