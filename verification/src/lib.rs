//! A small in-process issue tracker: validated ticket fields, a command
//! model, a ticket store, and a handler that applies one command to the
//! store and reports the outcome.

pub mod handler;
pub mod laws;
pub mod parse;
pub mod store;
pub mod ticket;
