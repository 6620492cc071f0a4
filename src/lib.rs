//! Rules engine for a two-player game of tic-tac-toe: the board, whose turn it
//! is, which moves are accepted, and when the game is won or tied.
pub mod game;
pub mod identity;
pub mod instructions;
pub mod lemmas;
