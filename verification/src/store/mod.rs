//! What goes to the store and what comes back from it.

pub mod failure;
pub mod rows;
pub mod statement;
pub mod table;
