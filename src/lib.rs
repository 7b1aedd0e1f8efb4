//! Client-side logic for a remotely hosted minesweeper-style exploration game:
//! decoding of wire records, the local session state machine, the board
//! projection and the layout of the terminal display.
pub mod board;
pub mod components;
pub mod felt;
pub mod layout;
pub mod movement;
pub mod session;
