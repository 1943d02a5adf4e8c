//! Connect Four: the board, the rules, a game and its screens.
//!
//! - [`grid`] is the mathematical model. A grid is a sequence of columns, each
//!   a sequence of cells from the bottom row upward, and the rules of the game
//!   are spec functions over it.
//! - [`board`] is the executable board, whose operations are proved against
//!   the model.
//! - [`laws`] states what the rules imply and proves it.
//! - [`game`] follows one game key by key: whose turn it is, what a key
//!   selects, and when the game is won or drawn.
//! - [`screen`] lays out what is shown, and [`term`] holds the few calls into
//!   `termion`, `colored` and `unicode_segmentation` that it rests on.

pub mod board;
pub mod game;
pub mod grid;
pub mod laws;
pub mod screen;
pub mod term;
