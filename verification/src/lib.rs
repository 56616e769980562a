//! A terminal snake game as a verified state machine.
//!
//! The crate holds the rules of the game and nothing that touches a terminal:
//! the snake and its movement, collisions and feeding, the menu / play /
//! game-over state machine, the mapping from key presses to actions, and the
//! composition of each frame as a list of drawing commands. A front end polls
//! the keyboard, hands the key presses in, and paints the frames it gets back.

pub mod draw;
pub mod food;
pub mod game;
pub mod geometry;
pub mod input;
pub mod laws;
mod random;
pub mod snake;
pub mod text;
