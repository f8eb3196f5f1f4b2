//! Messages exchanged between the client and the server.

use vstd::prelude::*;

use super::buildings::BuildingData;
use super::types::{BuildingType, ChunkId, HexCoord, TileData};

verus! {

/// Messages from a client to the server.
#[derive(Debug, Clone)]
pub enum ClientMessage {
    /// First message of a session.
    Login { username: String },
    /// Asks for the tiles of the listed chunks.
    RequestChunks { chunk_ids: Vec<ChunkId> },
    /// Asks to build on a tile.
    BuildAction { coord: HexCoord, building_type: BuildingType },
    /// Asks to move a unit.
    MoveUnit { unit_id: u64, destination: HexCoord },
    /// Keep-alive.
    Ping,
}

/// Messages from the server to a client.
#[derive(Debug, Clone)]
pub enum ServerMessage {
    LoginSuccess { player_id: u64 },
    LoginError { reason: String },
    WorldTick { tick: u64 },
    WorldState { tick: u64, timestamp: u64 },
    /// The tiles of one chunk and the buildings on it.
    ChunkData { chunk_id: ChunkId, tiles: Vec<TileData>, buildings: Vec<BuildingData> },
    TickNotification { next_tick_in_seconds: u64 },
    ActionResult { success: bool, message: String },
    Pong,
}

} // verus!
