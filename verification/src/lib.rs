//! A fixed-size cellular automaton: a two-dimensional grid of binary cells
//! advanced generation by generation under the classic birth-on-3,
//! survive-on-2-or-3 neighbour rule on a finite (non-wrapping) board.

pub mod cell;
pub mod grid;
