//! Grid map model and scene layout for a small tactical game.
//!
//! The crate holds the rules of the scene and none of its presentation: which
//! terrain a cell has, where each tile goes and how it looks, and which units
//! stand where with which attributes. A front end reads these values and hands
//! them to its engine.

pub mod flags;
pub mod map;
pub mod terrain;
pub mod tiles;
pub mod units;
