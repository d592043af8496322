//! Rules of a small 2D adventure game, verified.
//!
//! The game engine (rendering, physics, asset loading, input devices) lives
//! outside this crate. What lives here is everything the game itself decides:
//! which file each sprite is loaded from, how an animation advances frame by
//! frame, how key presses accumulate into a movement vector, which entity a
//! collision turns into an interaction, how the timed mouse animations run
//! their course, and how the camera and depth sorting place things.
//!
//! Times are carried as whole nanoseconds and world coordinates as whole
//! milli-units, so that every rule is stated and proved over the integers.
//! The unverified shell around the engine converts at its edge.

pub mod animations;
pub mod assets;
pub mod camera;
pub mod keyboard_input;
pub mod player;
pub mod utils;
