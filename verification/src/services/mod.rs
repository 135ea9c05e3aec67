//! The persistence gateway.

pub mod game;
