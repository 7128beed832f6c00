//! A minimal HTTP greeting service: a fixed route table with two static
//! endpoints, and resolution of the listening port from an optional
//! environment value.
//!
//! The route table and the port resolution are pure functions and are
//! verified here; the network listener and the async runtime live outside
//! the library.

pub mod port;
pub mod routes;
