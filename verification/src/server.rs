//! The arbiter of the game.

pub mod action;
pub mod challenge;
pub mod command;
pub mod keys;
pub mod maze;
pub mod message;
pub mod player;
pub mod session;
pub mod team;
