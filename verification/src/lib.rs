//! Request handling and persistence mapping for a small HTTP API over one
//! table of games.
//!
//! The crate holds the decisions of the service and none of its I/O: how a
//! request is validated, which statement it becomes, how what the store
//! answered is classified, and which response goes back. A caller executes
//! the statements against its store and hands the outcome to the handlers.
//!
//! - [`models`]: the game and the shapes of request input.
//! - [`services`]: the gateway, which turns a request into a statement and a
//!   failure of the store into a condition.
//! - [`controllers`]: the handlers, which turn what the store answered into
//!   a response.
//! - [`router`]: the route table.
//! - [`store`]: statements, failures, and a table held in memory that
//!   answers the statements as the database does.
//! - [`response`], [`error`]: what handlers return and how requests fail.
//! - [`ident`], [`clock`]: identifiers and the time.
//! - [`laws`]: what holds of all of these together.

pub mod clock;
pub mod controllers;
pub mod error;
pub mod ident;
pub mod laws;
pub mod models;
pub mod response;
pub mod router;
pub mod services;
pub mod store;
