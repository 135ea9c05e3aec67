//! The entity and the shapes of what a request carries.

pub mod dtos;
pub mod game;
