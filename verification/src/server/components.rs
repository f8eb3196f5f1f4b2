//! Terrain and entity components of the server world.

use vstd::prelude::*;

use crate::shared::types::{
    chunk_division_ok, chunk_index, div_euclid_i32, size_as_i32, size_to_i32, BiomeType, HexCoord,
};

verus! {

/// Terrain of one hexagon on the server, with its river data.
#[derive(Debug, Clone, Copy, PartialEq, Eq, Hash, Structural)]
pub struct HexTile {
    pub coord: HexCoord,
    pub biome: BiomeType,
    pub altitude: i16,
    pub quality: u8,
    pub is_river: bool,
    pub river_flow: Option<u8>,
}

/// Position of a chunk on the server's chunk grid.
#[derive(Debug, Clone, Copy, PartialEq, Eq, Hash, Structural)]
pub struct ChunkCoord {
    pub x: i32,
    pub y: i32,
}

impl ChunkCoord {
    /// The chunk of side `chunk_size` that holds `hex`.
    pub fn from_hex(hex: HexCoord, chunk_size: u32) -> (res: Self)
        requires
            chunk_division_ok(hex.q, chunk_size),
            chunk_division_ok(hex.r, chunk_size),
        ensures
            res.x == chunk_index(hex.q as int, size_as_i32(chunk_size)),
            res.y == chunk_index(hex.r as int, size_as_i32(chunk_size)),
    {
        let size = size_to_i32(chunk_size);
        ChunkCoord { x: div_euclid_i32(hex.q, size), y: div_euclid_i32(hex.r, size) }
    }
}

/// A generated chunk: its position, its tiles and when it was generated
/// (seconds since the Unix epoch).
#[derive(Debug, Clone)]
pub struct Chunk {
    pub coord: ChunkCoord,
    pub tiles: Vec<HexTile>,
    pub generated_at: u64,
}

/// Where an entity stands.
#[derive(Debug, Clone, Copy, PartialEq, Eq, Hash, Structural)]
pub struct Position {
    pub coord: HexCoord,
}

/// Attributes of a unit.
#[derive(Debug, Clone, Copy, PartialEq, Eq, Hash, Structural)]
pub struct Stats {
    pub strength: u8,
    pub agility: u8,
    pub constitution: u8,
    pub intelligence: u8,
    pub wisdom: u8,
    pub charisma: u8,
}

/// Marks an entity that is replicated to clients.
#[derive(Debug, Clone, Copy, PartialEq, Eq, Hash, Structural)]
pub struct NetworkedEntity;

} // verus!
