//! The route table.

pub mod router;
