//! The measures that the game is played with.
use vstd::prelude::*;

verus! {

/// Height of a jump, in pixels.
pub const MAX_JUMP_HEIGHT_PX: u16 = 45;

/// Frames that a jump takes to reach its height.
pub const MAX_JUMP_DURATION_FRAMES: u16 = 16;

/// Frames between two birds: five seconds.
pub const BIRD_SPAWN_INTERVAL_FRAMES: u16 = 300;

/// Frames between two cacti: three seconds.
pub const CACTUS_SPAWN_INTERVAL_FRAMES: u16 = 180;

/// Frames that a level lasts: half a minute.
pub const LEVEL_UP_INTERVAL_FRAMES: u16 = 1800;

} // verus!
