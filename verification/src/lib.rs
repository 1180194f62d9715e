//! A maze game for teams of players, played over a network link.
//!
//! `wire` holds what travels on the link: frames, messages, the base-64
//! dialect and the radar payload. `server` holds the arbiter: the maze,
//! the registry of teams, the actions of a player and the course of a
//! connection. `engine` and `client` hold the player's side: the
//! navigator, the map, the challenges and the answer to each message.
//! `solver` holds the rules of a plain maze without the link. `trusted`
//! lists what is taken on trust from code outside the library.

pub mod client;
pub mod engine;
pub mod server;
pub mod solver;
pub mod trusted;
pub mod wire;
