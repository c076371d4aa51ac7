//! What the operations of a client come to, for every input.
//!
//! Each law speaks of a call by what it was given and what it gave back.

pub mod connections;
pub mod errors;
pub mod requests;
pub mod settings;
pub mod uris;
