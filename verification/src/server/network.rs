//! The server's answers to client messages, once the chunks that a request
//! names have been looked up in the database.

use vstd::prelude::*;

use super::components::{Chunk, HexTile};
use crate::hex_grid::generator::{chunk_fits, chunk_tiles, WorldGenerator};
use crate::hex_grid::CHUNK_SIZE;
use crate::shared::buildings::BuildingData;
use crate::shared::protocol::{ClientMessage, ServerMessage};
use crate::shared::types::{ChunkId, TileData};

verus! {

/// Address and port that the server listens on.
#[derive(Debug, Clone)]
pub struct NetworkServer {
    pub address: String,
    pub port: u16,
}

impl NetworkServer {
    pub fn new(address: String, port: u16) -> (res: Self)
        ensures
            res.address == address,
            res.port == port,
    {
        NetworkServer { address, port }
    }
}

/// What the database gave for one requested chunk.
#[derive(Debug, Clone)]
pub enum ChunkLookup {
    /// The chunk was stored, with the buildings stored on it, or `None`
    /// when loading the buildings failed.
    Found(Chunk, Option<Vec<BuildingData>>),
    /// No such chunk is stored.
    Missing,
    /// The database failed.
    Failed,
}

/// The network form of a server tile: its coordinate, biome, altitude and quality.
pub open spec fn tile_data_of(t: HexTile) -> TileData {
    TileData { coord: t.coord, biome: t.biome, altitude: t.altitude, quality: t.quality }
}

/// Tiles sent for a chunk: the stored ones when the lookup found the chunk,
/// else the ones the world generator makes for it.
pub open spec fn tiles_for_lookup(seed: u64, chunk_id: ChunkId, lookup: ChunkLookup) -> Seq<TileData> {
    match lookup {
        ChunkLookup::Found(c, _) => c.tiles@.map_values(|t: HexTile| tile_data_of(t)),
        _ => chunk_tiles(seed, chunk_id),
    }
}

/// Buildings sent for a chunk: the loaded ones when the lookup found the
/// chunk and its buildings loaded, else none.
pub open spec fn buildings_for_lookup(lookup: ChunkLookup) -> Seq<BuildingData> {
    match lookup {
        ChunkLookup::Found(_, Some(b)) => b@,
        _ => Seq::empty(),
    }
}

/// `msg` is the chunk data sent for `chunk_id` after `lookup`.
pub open spec fn answers_chunk(seed: u64, chunk_id: ChunkId, lookup: ChunkLookup, msg: ServerMessage) -> bool {
    match msg {
        ServerMessage::ChunkData { chunk_id: id, tiles, buildings } => {
            &&& id == chunk_id
            &&& tiles@ == tiles_for_lookup(seed, chunk_id, lookup)
            &&& buildings@ == buildings_for_lookup(lookup)
        },
        _ => false,
    }
}

/// The lookup can be answered: the chunk was found, or it can be generated.
pub open spec fn answerable(chunk_id: ChunkId, lookup: ChunkLookup) -> bool {
    lookup is Found || chunk_fits(chunk_id, CHUNK_SIZE as int)
}

/// The network tiles of a stored chunk, in its order.
pub fn tiles_from_chunk(chunk: &Chunk) -> (res: Vec<TileData>)
    ensures
        res@ == chunk.tiles@.map_values(|t: HexTile| tile_data_of(t)),
{
    let mut tiles: Vec<TileData> = Vec::new();
    let mut i: usize = 0;
    while i < chunk.tiles.len()
        invariant
            0 <= i <= chunk.tiles.len(),
            tiles.len() == i,
            forall|j: int| 0 <= j < i ==> #[trigger] tiles@[j] == tile_data_of(chunk.tiles@[j]),
        decreases chunk.tiles.len() - i,
    {
        let t = &chunk.tiles[i];
        tiles.push(TileData { coord: t.coord, biome: t.biome, altitude: t.altitude, quality: t.quality });
        i = i + 1;
    }
    assert(tiles@ =~= chunk.tiles@.map_values(|t: HexTile| tile_data_of(t)));
    tiles
}

/// The chunk data sent for `chunk_id`: the stored tiles and buildings when
/// the lookup found the chunk (no buildings when they failed to load), else
/// freshly generated tiles and no buildings.
pub fn chunk_response(chunk_id: ChunkId, lookup: ChunkLookup, world_gen: &WorldGenerator) -> (res: ServerMessage)
    requires
        answerable(chunk_id, lookup),
    ensures
        answers_chunk(world_gen.seed_value(), chunk_id, lookup, res),
{
    match lookup {
        ChunkLookup::Found(chunk, loaded) => {
            let buildings = match loaded {
                Some(b) => b,
                None => Vec::new(),
            };
            ServerMessage::ChunkData { chunk_id, tiles: tiles_from_chunk(&chunk), buildings }
        },
        _ => {
            let tiles = world_gen.generate_chunk(chunk_id);
            ServerMessage::ChunkData { chunk_id, tiles, buildings: Vec::new() }
        },
    }
}

/// The answer to one client message. A login is welcomed with its player id;
/// a chunk request gets one chunk-data message per requested chunk, in the
/// order requested, built from `lookups` (the database outcome for each
/// requested chunk, in the same order); a ping, and any other message, gets a
/// pong.
pub fn handle_client_message(
    msg: &ClientMessage,
    player_id: u64,
    world_gen: &WorldGenerator,
    lookups: Vec<ChunkLookup>,
) -> (res: Vec<ServerMessage>)
    requires
        msg matches ClientMessage::RequestChunks { chunk_ids } ==> {
            &&& lookups.len() == chunk_ids.len()
            &&& forall|i: int| 0 <= i < chunk_ids.len() ==> answerable(chunk_ids@[i], #[trigger] lookups@[i])
        },
    ensures
        msg matches ClientMessage::Login { .. } ==> res.len() == 1 && res@[0] == (ServerMessage::LoginSuccess { player_id }),
        msg matches ClientMessage::RequestChunks { chunk_ids } ==> {
            &&& res.len() == chunk_ids.len()
            &&& forall|i: int|
                0 <= i < chunk_ids.len() ==> #[trigger] answers_chunk(
                    world_gen.seed_value(),
                    chunk_ids@[i],
                    lookups@[i],
                    res@[i],
                )
        },
        !(msg is Login || msg is RequestChunks) ==> res.len() == 1 && res@[0] == ServerMessage::Pong,
{
    match msg {
        ClientMessage::Login { .. } => {
            let mut res: Vec<ServerMessage> = Vec::new();
            res.push(ServerMessage::LoginSuccess { player_id });
            res
        },
        ClientMessage::RequestChunks { chunk_ids } => {
            let ghost all = lookups@;
            let mut rest = lookups;
            let mut responses: Vec<ServerMessage> = Vec::new();
            let mut i: usize = 0;
            while i < chunk_ids.len()
                invariant
                    0 <= i <= chunk_ids.len(),
                    all.len() == chunk_ids.len(),
                    forall|k: int| 0 <= k < chunk_ids.len() ==> answerable(chunk_ids@[k], #[trigger] all[k]),
                    rest@ == all.subrange(i as int, all.len() as int),
                    responses.len() == i,
                    forall|k: int|
                        0 <= k < i ==> #[trigger] answers_chunk(
                            world_gen.seed_value(),
                            chunk_ids@[k],
                            all[k],
                            responses@[k],
                        ),
                decreases chunk_ids.len() - i,
            {
                let lookup = rest.remove(0);
                proof {
                    assert(lookup == all[i as int]);
                    assert(rest@ =~= all.subrange(i as int + 1, all.len() as int));
                }
                let r = chunk_response(chunk_ids[i], lookup, world_gen);
                responses.push(r);
                i = i + 1;
            }
            responses
        },
        _ => {
            let mut res: Vec<ServerMessage> = Vec::new();
            res.push(ServerMessage::Pong);
            res
        },
    }
}

/// A stored chunk is sent as it was stored: one network tile per stored
/// tile, in order, each with the stored coordinate, biome, altitude and
/// quality, together with exactly the buildings that loaded (none when they
/// failed to load); a chunk that was not found is sent as generated, with no
/// buildings.
pub proof fn stored_chunks_sent_unchanged(seed: u64, chunk_id: ChunkId, chunk: Chunk, loaded: Option<Vec<BuildingData>>)
    ensures
        tiles_for_lookup(seed, chunk_id, ChunkLookup::Found(chunk, loaded)).len() == chunk.tiles.len(),
        forall|i: int|
            0 <= i < chunk.tiles.len() ==> {
                let sent = #[trigger] tiles_for_lookup(seed, chunk_id, ChunkLookup::Found(chunk, loaded))[i];
                let stored = chunk.tiles@[i];
                &&& sent.coord == stored.coord
                &&& sent.biome == stored.biome
                &&& sent.altitude == stored.altitude
                &&& sent.quality == stored.quality
            },
        loaded matches Some(b) ==> buildings_for_lookup(ChunkLookup::Found(chunk, loaded)) == b@,
        loaded is None ==> buildings_for_lookup(ChunkLookup::Found(chunk, loaded)).len() == 0,
        tiles_for_lookup(seed, chunk_id, ChunkLookup::Missing) == chunk_tiles(seed, chunk_id),
        tiles_for_lookup(seed, chunk_id, ChunkLookup::Failed) == chunk_tiles(seed, chunk_id),
        buildings_for_lookup(ChunkLookup::Missing).len() == 0,
        buildings_for_lookup(ChunkLookup::Failed).len() == 0,
{
}

} // verus!
