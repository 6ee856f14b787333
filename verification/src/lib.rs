//! Simulation core of a small real-time 2D arcade shooter: the input
//! snapshot, the cooldown timer, the player's firing control and the world
//! that takes in what the player fires and moves every entity on, frame by
//! frame, in the order in which they were spawned.
//!
//! Time is counted in whole nanoseconds throughout.

pub mod game;
pub mod game_event;
pub mod game_object;
pub mod input_handler;
pub mod player;
pub mod timer_object;
