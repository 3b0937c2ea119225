//! Content-collection access layer: a capacity- and time-bounded document
//! cache in front of a decompress-and-parse pipeline, with typed error
//! composition for the surrounding service.

pub mod cache;
pub mod config;
pub mod decode;
pub mod errors;
pub mod json;
pub mod laws;
pub mod model;
pub mod store;
