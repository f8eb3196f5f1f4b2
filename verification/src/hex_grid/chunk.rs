//! A chunk of placeholder tiles, generated eagerly and searched by coordinate.

use vstd::prelude::*;

use super::generator::{chunk_fits, chunk_hex_coords, chunk_local_coord};
use super::CHUNK_SIZE;
use crate::shared::types::{BiomeType, ChunkId, HexCoord};

verus! {

/// Terrain of one hexagon, with its water flags.
#[derive(Debug, Clone, Copy, PartialEq, Eq, Hash, Structural)]
pub struct Tile {
    pub coord: HexCoord,
    pub biome: BiomeType,
    pub altitude: i16,
    pub quality: u8,
    pub has_water: bool,
    pub has_river: bool,
}

/// The placeholder tile that chunk generation puts at `coord`: flat dry
/// grassland of medium quality.
pub open spec fn placeholder_tile(coord: HexCoord) -> Tile {
    Tile {
        coord,
        biome: BiomeType::Grassland,
        altitude: 0,
        quality: 50,
        has_water: false,
        has_river: false,
    }
}

/// Generates the tile at `coord`; the seed does not influence it yet.
pub fn generate_tile(coord: HexCoord, seed: u64) -> (res: Tile)
    ensures
        res == placeholder_tile(coord),
{
    Tile {
        coord,
        biome: BiomeType::Grassland,
        altitude: 0,
        quality: 50,
        has_water: false,
        has_river: false,
    }
}

/// `i` is the index of the first tile of `tiles` at `coord`.
pub open spec fn first_tile_at(tiles: Seq<Tile>, coord: HexCoord, i: int) -> bool {
    &&& 0 <= i < tiles.len()
    &&& tiles[i].coord == coord
    &&& forall|j: int| 0 <= j < i ==> tiles[j].coord != coord
}

/// A chunk of tiles and whether it changed since it was last saved.
#[derive(Debug, Clone)]
pub struct Chunk {
    pub id: ChunkId,
    pub tiles: Vec<Tile>,
    pub dirty: bool,
}

impl Chunk {
    /// The chunk `id` with all its tiles generated, column by column, and not dirty.
    pub fn new(id: ChunkId, seed: u64) -> (res: Self)
        requires
            chunk_fits(id, CHUNK_SIZE as int),
        ensures
            res.id == id,
            !res.dirty,
            res.tiles.len() == CHUNK_SIZE * CHUNK_SIZE,
            forall|i: int|
                0 <= i < res.tiles.len() ==> #[trigger] res.tiles@[i] == placeholder_tile(
                    chunk_local_coord(id, CHUNK_SIZE as int, i),
                ),
    {
        let coords = chunk_hex_coords(id, CHUNK_SIZE as i32);
        let mut tiles: Vec<Tile> = Vec::new();
        let mut i: usize = 0;
        while i < coords.len()
            invariant
                coords.len() == CHUNK_SIZE * CHUNK_SIZE,
                forall|k: int|
                    0 <= k < coords.len() ==> #[trigger] coords@[k] == chunk_local_coord(id, CHUNK_SIZE as int, k),
                0 <= i <= coords.len(),
                tiles.len() == i,
                forall|k: int|
                    0 <= k < tiles.len() ==> #[trigger] tiles@[k] == placeholder_tile(
                        chunk_local_coord(id, CHUNK_SIZE as int, k),
                    ),
            decreases coords.len() - i,
        {
            tiles.push(generate_tile(coords[i], seed));
            i = i + 1;
        }
        Chunk { id, tiles, dirty: false }
    }

    /// The first tile of the chunk at `coord`, or `None` when no tile is there.
    pub fn get_tile(&self, coord: HexCoord) -> (res: Option<&Tile>)
        ensures
            res is None <==> forall|i: int| 0 <= i < self.tiles.len() ==> self.tiles@[i].coord != coord,
            res matches Some(t) ==> exists|i: int|
                first_tile_at(self.tiles@, coord, i) && self.tiles@[i] == *t,
    {
        let mut i: usize = 0;
        while i < self.tiles.len()
            invariant
                0 <= i <= self.tiles.len(),
                forall|j: int| 0 <= j < i ==> self.tiles@[j].coord != coord,
            decreases self.tiles.len() - i,
        {
            if self.tiles[i].coord == coord {
                assert(first_tile_at(self.tiles@, coord, i as int));
                return Some(&self.tiles[i]);
            }
            i = i + 1;
        }
        None
    }
}

/// A placeholder tile is dry, riverless grassland at altitude 0 and of
/// quality 50, at the coordinate it was made for.
pub proof fn placeholder_tile_is_plain_grassland(coord: HexCoord)
    ensures
        placeholder_tile(coord).coord == coord,
        placeholder_tile(coord).biome == BiomeType::Grassland,
        placeholder_tile(coord).altitude == 0,
        placeholder_tile(coord).quality == 50,
        !placeholder_tile(coord).has_water,
        !placeholder_tile(coord).has_river,
{
}

} // verus!
