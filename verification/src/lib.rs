//! The core of a link shortener: reversible short codes for allocated
//! indices, an in-memory cache of resolved links, and the decisions taken
//! around the durable store, which the caller drives.

pub mod cache;
pub mod encoder;
pub mod service;
pub mod store;
