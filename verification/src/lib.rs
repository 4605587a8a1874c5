//! Core of a small HTTP file server: request routing, path resolution,
//! directory-listing construction, and the chunk-by-chunk upload and download
//! state machines, all with verified contracts. The network and filesystem
//! edges live outside this crate and drive these functions with plain values.

pub mod download;
pub mod http;
pub mod laws;
pub mod listing;
pub mod path;
pub mod router;
pub mod upload;
