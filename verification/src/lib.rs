//! Rules of a two-player paddle-and-ball court game.
//!
//! The crate holds what the game decides: where the pieces stand, how far a
//! paddle travels, how the ball leaves what it hits, when a point is counted
//! and what the scoreboard shows, and when a lost ball is replaced. Drawing,
//! sound, input and collision detection are left to the program around it,
//! which hands over plain values and acts on what comes back.

pub mod bounce;
pub mod court;
pub mod item;
pub mod paddle;
pub mod respawn;
pub mod score;
