//! The core of a URL shortener: signed identity tokens, the rules for slug
//! names and target URLs, and the slug lifecycle against a key-value store.
//!
//! The crate performs no I/O. Where a request needs the store, the library
//! says which command to send and takes the store's answer as a value.

pub mod auth;
pub mod listing;
pub mod model;
pub mod routes;
pub mod store;
pub mod structs;
pub mod text;
pub mod validate;
