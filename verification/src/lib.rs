//! The decisions of an HTTP client.
//!
//! A [`client::Client`] turns a request into one that waits for a connection to its
//! destination, or into an error. A connection comes from the pool or from the
//! connector: [`race`] and [`connect`] say what follows from each answer on the way.
//! Once there is one, the client brings the request into the form that the
//! connection takes, [`pool::Exchange`] says what becomes of the response and of the
//! connection, and [`send`] whether the request goes to another connection.
//!
//! What all this comes to is stated in [`laws`], call by call.
//!
//! Nothing here waits. Whoever runs the client performs what is asked for, and hands
//! back what came of it.

pub mod builder;
pub mod client;
pub mod config;
pub mod connect;
pub mod error;
pub mod forms;
pub mod headers;
pub mod laws;
pub mod pool;
pub mod race;
pub mod request;
pub mod send;
pub mod text;
pub mod uri;
