//! A snake on a wrapping grid, drawn as a grid of characters.
//!
//! The crate holds the rules of the game and nothing that touches a terminal:
//! how the snake moves and turns, how eggs are eaten and laid again, how a
//! frame is composed, how a key or a resize is answered, and which events are
//! announced on the way. A program around it reads keys, writes frames and
//! forwards what was announced.

pub mod config;
pub mod events;
pub mod grid;
pub mod input;
pub mod renderer;
pub mod sprites;
pub mod text;
