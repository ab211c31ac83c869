//! A two-player turn-based grid game on a fixed-size square board.
//!
//! The crate models the board state of the game and proves its two
//! queries correct: `full`, which decides whether every cell is
//! occupied, and `winner`, which finds the mark that completed a row,
//! a column, or a diagonal, honouring the fixed scan order of rows,
//! then columns, then the two diagonals.

pub mod board;
pub mod cell;
pub mod laws;
