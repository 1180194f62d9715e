//! What a player keeps for itself while it explores.

pub mod challenge;
pub mod directions;
pub mod global_map;
pub mod maze;
pub mod navigation;
pub mod position_set;
pub mod radar;
pub mod scoring;
pub mod tally;
