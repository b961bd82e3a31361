//! A side-scrolling runner: the player jumps over cacti and birds that the
//! scrolling world carries along, and the world gets faster level by level.
//!
//! The library is the simulation alone. It is advanced one frame at a time
//! from the buttons that were pressed and a random value, and says what to
//! draw, which sounds to play and where the background has scrolled to.
pub mod collision;
pub mod constant;
pub mod enemy;
pub mod fixnum;
pub mod game;
pub mod player;
pub mod render;
pub mod resource;
pub mod save;
pub mod spawn;
