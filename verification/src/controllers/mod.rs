//! The request handlers.

pub mod game;
