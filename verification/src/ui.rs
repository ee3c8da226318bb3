//! What the interface of the player is told and remembers.

pub mod models;
