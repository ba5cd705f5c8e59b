//! A small client for the X11 display protocol and the minesweeper board it draws.
//!
//! Every module works on plain bytes: the wire layouts of the connection setup, of
//! the requests and of the event frames are encoded and decoded field by field,
//! little-endian, with contracts over the byte sequences they produce or read.
pub mod auth;
pub mod events;
pub mod game;
pub mod requests;
pub mod setup;
pub mod utils;
pub mod wire;
