//! A verified core for noughts and crosses on a three-by-three board.
//!
//! The crate holds the board and its winning lines, the selectors that
//! address its tiles, the token that certifies a move, the turn controller
//! and the text in which a board is drawn. It reads no input and prints
//! nothing: a front end hands it selections and prints what it returns.
//!
//! Every function states what it returns in a contract that the verifier
//! proves from its body. Three calls leave the crate and are trusted
//! instead: the painting of a mark in `colour`, and the trimming and
//! parsing of a line in `input`.

pub mod board;
pub mod colour;
pub mod formatting;
pub mod game;
pub mod input;
pub mod target;
pub mod tile;
