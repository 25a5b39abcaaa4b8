//! Verified core of a small 2D tile-based puzzle game.
//!
//! The game world is a grid of tiles. Players move one cell at a time;
//! solid tiles block movement, interactable tiles fire interactions,
//! coins and hearts are picked up by standing on their cell, and a short
//! tutorial countdown ticks once per directional input. This crate holds
//! that rule set as verified functions over plain values; an engine (or
//! any other harness) drives them from the outside.

pub mod animation;
pub mod app_states;
pub mod controls;
pub mod gold;
pub mod health;
pub mod interaction;
pub mod levels;
pub mod movement;
pub mod sprites;
pub mod tile_index;
pub mod tiles;
pub mod tutorial;
