//! Hash-based world generator: every tile is a pure function of the seed and
//! of its coordinate.

use vstd::prelude::*;

use super::CHUNK_SIZE;
use crate::shared::types::{BiomeType, ChunkId, HexCoord, TileData};

verus! {

/// Multiplier of the coordinate hash.
pub const HASH_MULTIPLIER: u64 = 6364136223846793005;

/// Hash of a coordinate under a seed: xor in `q`, multiply, xor in `r`,
/// multiply, with wrapping multiplications and sign-extended components.
pub open spec fn coord_hash(seed: u64, coord: HexCoord) -> u64 {
    ((seed ^ (coord.q as u64)).wrapping_mul(HASH_MULTIPLIER) ^ (coord.r as u64)).wrapping_mul(
        HASH_MULTIPLIER,
    )
}

/// Biome picked by the remainder of a hash modulo 8.
pub open spec fn biome_for_index(i: u64) -> BiomeType {
    if i == 0 {
        BiomeType::Ocean
    } else if i == 1 {
        BiomeType::Coast
    } else if i == 2 || i == 3 {
        BiomeType::Grassland
    } else if i == 4 {
        BiomeType::Forest
    } else if i == 5 {
        BiomeType::Mountain
    } else if i == 6 {
        BiomeType::Desert
    } else {
        BiomeType::Tundra
    }
}

/// The tile that the generator with seed `seed` puts at `coord`.
pub open spec fn tile_for(seed: u64, coord: HexCoord) -> TileData {
    let h = coord_hash(seed, coord);
    TileData {
        coord,
        biome: biome_for_index(h % 8),
        altitude: ((h % 1000) - 500) as i16,
        quality: (h % 100) as u8,
    }
}

/// Coordinate of the `i`-th tile of chunk `chunk` (side `size`), tiles being
/// listed column by column: `q` grows every `size` tiles, `r` in between.
pub open spec fn chunk_local_coord(chunk: ChunkId, size: int, i: int) -> HexCoord {
    HexCoord { q: (chunk.x * size + i / size) as i32, r: (chunk.y * size + i % size) as i32 }
}

/// The tiles that the generator with seed `seed` lists for chunk `chunk`.
pub open spec fn chunk_tiles(seed: u64, chunk: ChunkId) -> Seq<TileData> {
    Seq::new(
        (CHUNK_SIZE * CHUNK_SIZE) as nat,
        |i: int| tile_for(seed, chunk_local_coord(chunk, CHUNK_SIZE as int, i)),
    )
}

/// Every coordinate of chunk `chunk` (side `size`) fits in an `i32`.
pub open spec fn chunk_fits(chunk: ChunkId, size: int) -> bool {
    &&& i32::MIN <= chunk.x * size
    &&& chunk.x * size + size - 1 <= i32::MAX
    &&& i32::MIN <= chunk.y * size
    &&& chunk.y * size + size - 1 <= i32::MAX
}

/// Coordinates of the tiles of chunk `chunk` of side `size`, column by
/// column, as `chunk_local_coord` lists them.
pub(crate) fn chunk_hex_coords(chunk: ChunkId, size: i32) -> (res: Vec<HexCoord>)
    requires
        size > 0,
        chunk_fits(chunk, size as int),
    ensures
        res.len() == size * size,
        forall|i: int| 0 <= i < res.len() ==> #[trigger] res@[i] == chunk_local_coord(chunk, size as int, i),
{
    let mut coords: Vec<HexCoord> = Vec::new();
    let mut local_q: i32 = 0;
    while local_q < size
        invariant
            size > 0,
            chunk_fits(chunk, size as int),
            0 <= local_q <= size,
            coords.len() == local_q * size,
            forall|i: int|
                0 <= i < coords.len() ==> #[trigger] coords@[i] == chunk_local_coord(chunk, size as int, i),
        decreases size - local_q,
    {
        let mut local_r: i32 = 0;
        while local_r < size
            invariant
                size > 0,
                chunk_fits(chunk, size as int),
                0 <= local_q < size,
                0 <= local_r <= size,
                coords.len() == local_q * size + local_r,
                forall|i: int|
                    0 <= i < coords.len() ==> #[trigger] coords@[i] == chunk_local_coord(chunk, size as int, i),
            decreases size - local_r,
        {
            proof {
                assert(chunk.x * size + local_q <= chunk.x * size + size - 1);
                assert(chunk.y * size + local_r <= chunk.y * size + size - 1);
            }
            let coord = HexCoord::new(chunk.x * size + local_q, chunk.y * size + local_r);
            proof {
                let i = local_q * size + local_r;
                vstd::arithmetic::div_mod::lemma_fundamental_div_mod_converse(
                    i,
                    size as int,
                    local_q as int,
                    local_r as int,
                );
                assert(coord == chunk_local_coord(chunk, size as int, i));
            }
            coords.push(coord);
            local_r = local_r + 1;
        }
        proof {
            assert((local_q + 1) * size == local_q * size + size) by (nonlinear_arith);
        }
        local_q = local_q + 1;
    }
    coords
}

/// Generator of the tiles of the world from a seed.
#[derive(Debug, Clone)]
pub struct WorldGenerator {
    seed: u64,
}

impl WorldGenerator {
    /// Seed that the generator was made with.
    pub closed spec fn seed_value(&self) -> u64 {
        self.seed
    }

    pub fn new(seed: u64) -> (res: Self)
        ensures
            res.seed_value() == seed,
    {
        WorldGenerator { seed }
    }

    /// Hash of `coord` under the generator's seed.
    pub fn hash_coord(&self, coord: HexCoord) -> (res: u64)
        ensures
            res == coord_hash(self.seed_value(), coord),
    {
        let mut hash = self.seed;
        hash = hash ^ (coord.q as u64);
        hash = hash.wrapping_mul(HASH_MULTIPLIER);
        hash = hash ^ (coord.r as u64);
        hash = hash.wrapping_mul(HASH_MULTIPLIER);
        hash
    }

    /// The tile at `coord`: its biome, altitude in `[-500, 500)` and quality in
    /// `[0, 100)` all come from the coordinate's hash.
    pub fn generate_tile(&self, coord: HexCoord) -> (res: TileData)
        ensures
            res == tile_for(self.seed_value(), coord),
            -500 <= res.altitude < 500,
            res.quality < 100,
    {
        let hash = self.hash_coord(coord);
        let biome_idx = hash % 8;
        let biome = match biome_idx {
            0 => BiomeType::Ocean,
            1 => BiomeType::Coast,
            2 | 3 => BiomeType::Grassland,
            4 => BiomeType::Forest,
            5 => BiomeType::Mountain,
            6 => BiomeType::Desert,
            _ => BiomeType::Tundra,
        };
        TileData {
            coord,
            biome,
            altitude: ((hash % 1000) as i16) - 500,
            quality: (hash % 100) as u8,
        }
    }

    /// All tiles of chunk `chunk_id`, column by column.
    pub fn generate_chunk(&self, chunk_id: ChunkId) -> (res: Vec<TileData>)
        requires
            chunk_fits(chunk_id, CHUNK_SIZE as int),
        ensures
            res.len() == CHUNK_SIZE * CHUNK_SIZE,
            forall|i: int|
                0 <= i < res.len() ==> #[trigger] res@[i] == tile_for(
                    self.seed_value(),
                    chunk_local_coord(chunk_id, CHUNK_SIZE as int, i),
                ),
            res@ == chunk_tiles(self.seed_value(), chunk_id),
    {
        let coords = chunk_hex_coords(chunk_id, CHUNK_SIZE as i32);
        let mut tiles: Vec<TileData> = Vec::new();
        let mut i: usize = 0;
        while i < coords.len()
            invariant
                coords.len() == CHUNK_SIZE * CHUNK_SIZE,
                forall|k: int|
                    0 <= k < coords.len() ==> #[trigger] coords@[k] == chunk_local_coord(
                        chunk_id,
                        CHUNK_SIZE as int,
                        k,
                    ),
                0 <= i <= coords.len(),
                tiles.len() == i,
                forall|k: int|
                    0 <= k < tiles.len() ==> #[trigger] tiles@[k] == tile_for(
                        self.seed_value(),
                        chunk_local_coord(chunk_id, CHUNK_SIZE as int, k),
                    ),
            decreases coords.len() - i,
        {
            let tile = self.generate_tile(coords[i]);
            tiles.push(tile);
            i = i + 1;
        }
        assert(tiles@ =~= chunk_tiles(self.seed_value(), chunk_id));
        tiles
    }
}

/// Every tile that `generate_chunk` lists for a chunk lies in that chunk.
pub proof fn generated_tiles_belong_to_chunk(chunk: ChunkId, size: int, i: int)
    requires
        size > 0,
        chunk_fits(chunk, size),
        0 <= i < size * size,
    ensures
        crate::shared::types::chunk_index(chunk_local_coord(chunk, size, i).q as int, size)
            == chunk.x,
        crate::shared::types::chunk_index(chunk_local_coord(chunk, size, i).r as int, size)
            == chunk.y,
{
    let lq = i / size;
    let lr = i % size;
    assert(0 <= lq < size && 0 <= lr < size) by (nonlinear_arith)
        requires
            size > 0,
            0 <= i < size * size,
            lq == i / size,
            lr == i % size,
    {
        vstd::arithmetic::div_mod::lemma_fundamental_div_mod(i, size);
    }
    let q = chunk.x * size + lq;
    let r = chunk.y * size + lr;
    vstd::arithmetic::div_mod::lemma_fundamental_div_mod_converse(q, size, chunk.x as int, lq);
    vstd::arithmetic::div_mod::lemma_fundamental_div_mod_converse(r, size, chunk.y as int, lr);
}

/// What the generator puts on a tile, by the remainders of the tile's
/// coordinate hash `h`: the biome is ocean for `h % 8 == 0`, coast for 1,
/// grassland for 2 and 3 (and only then), forest for 4, mountain for 5,
/// desert for 6 and tundra for 7; the altitude is `h % 1000 - 500` and the
/// quality `h % 100`; the tile keeps its coordinate.
pub proof fn generated_tile_table(seed: u64, coord: HexCoord)
    ensures
        tile_for(seed, coord).coord == coord,
        coord_hash(seed, coord) % 8 == 0 ==> tile_for(seed, coord).biome == BiomeType::Ocean,
        coord_hash(seed, coord) % 8 == 1 ==> tile_for(seed, coord).biome == BiomeType::Coast,
        tile_for(seed, coord).biome == BiomeType::Grassland <==> (coord_hash(seed, coord) % 8 == 2
            || coord_hash(seed, coord) % 8 == 3),
        coord_hash(seed, coord) % 8 == 4 ==> tile_for(seed, coord).biome == BiomeType::Forest,
        coord_hash(seed, coord) % 8 == 5 ==> tile_for(seed, coord).biome == BiomeType::Mountain,
        coord_hash(seed, coord) % 8 == 6 ==> tile_for(seed, coord).biome == BiomeType::Desert,
        coord_hash(seed, coord) % 8 == 7 ==> tile_for(seed, coord).biome == BiomeType::Tundra,
        tile_for(seed, coord).altitude == coord_hash(seed, coord) % 1000 - 500,
        tile_for(seed, coord).quality == coord_hash(seed, coord) % 100,
{
}

} // verus!
