//! A plain maze without the link: steps through it, and the challenges of
//! a solver that answers for its whole team.

pub mod challenge;
pub mod movement;
