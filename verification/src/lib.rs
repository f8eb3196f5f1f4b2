//! Verified core of the Living Landz hex-grid world: coordinates, chunks,
//! procedural tile generation, world-map sampling, server request handling
//! and the client-side chunk cache.

pub mod client;
pub mod hex_grid;
pub mod server;
pub mod shared;
