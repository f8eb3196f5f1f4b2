//! Client-side state: the cache of loaded chunks, the choice of chunks to
//! request around the camera, and the integer parts of tile visuals.

pub mod networking;
pub mod streaming;
pub mod visuals;
pub mod world_cache;
