//! Core state machine of a small 2D walking demo: a queue of directional
//! commands drives a single entity's velocity, facing and walk-cycle
//! animation, and a frame compositor turns the entity's state into the
//! pair of rectangles (sprite-sheet source, screen destination) that a
//! renderer needs each tick.

pub mod commands;
pub mod events;
pub mod geometry;
pub mod laws;
pub mod motion;
pub mod player;
pub mod sprite;
