//! Tile grid, character movement and framebuffer drawing for a small
//! particle-and-terrain toy, with the integer logic verified.

pub mod tile;
pub mod map;
pub mod character;
pub mod fluid;
pub mod world;
