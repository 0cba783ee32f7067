//! A verified core for Conway's Game of Life on a fixed-size grid.
//!
//! The crate holds the simulation logic: the grid with its transition rule,
//! the game state machine (pause flag, update cadence, generation counter,
//! auto-pause on stasis), and the per-tick decision procedure that an
//! unverified shell drives with commands from an input source and whose
//! snapshots it hands to a render sink.

pub mod game_engine;
pub mod grid;
pub mod input;
