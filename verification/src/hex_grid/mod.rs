//! Deterministic procedural generation of chunks of hexagonal tiles.

pub mod chunk;
pub mod generator;

use vstd::prelude::*;

verus! {

/// Number of hexagons along each side of a chunk.
pub const CHUNK_SIZE: u32 = 48;

} // verus!
