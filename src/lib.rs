//! Chess position editor: the board's drag-and-drop state machine and the
//! encoder that turns a board into a position string.
pub mod board;
pub mod fen;
