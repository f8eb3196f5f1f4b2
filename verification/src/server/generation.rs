//! Integer decisions of chunk generation: which tiles a chunk holds, in which
//! order the world's chunks are generated, how a map biome is refined by the
//! tile's altitude, and the base quality of each biome.

use vstd::prelude::*;

use super::components::{ChunkCoord, HexTile};
use super::resources::CHUNK_SIZE;
use crate::hex_grid::generator::{chunk_fits, chunk_hex_coords, chunk_local_coord};
use crate::shared::types::{BiomeType, ChunkId, HexCoord};

verus! {

/// The chunk identifier with the same position as a server chunk coordinate.
pub open spec fn as_chunk_id(c: ChunkCoord) -> ChunkId {
    ChunkId { x: c.x, y: c.y }
}

/// How many values the range `0..n as i32` holds: `n` when it fits in an
/// `i32`, else none, the cast giving a negative bound.
pub open spec fn range_count(n: u32) -> int {
    if n <= i32::MAX {
        n as int
    } else {
        0
    }
}

/// The `i`-th chunk of a world `chunks_y` chunks high, chunks listed column by column.
pub open spec fn world_chunk_at(chunks_y: int, i: int) -> ChunkCoord {
    ChunkCoord { x: (i / chunks_y) as i32, y: (i % chunks_y) as i32 }
}

/// Biome of a land tile, given the biome of the map, the tile's altitude,
/// whether its height is below `0.52` and whether its moisture is above `0.3`.
pub open spec fn land_biome(base: BiomeType, altitude: i16, low_height: bool, moist: bool) -> BiomeType {
    if altitude < -5 && moist {
        BiomeType::Lake
    } else if altitude < 5 && low_height {
        BiomeType::Beach
    } else if altitude < 10 {
        BiomeType::Coast
    } else if altitude > 1500 {
        if base == BiomeType::Forest || base == BiomeType::DenseForest {
            base
        } else {
            BiomeType::HighMountain
        }
    } else if altitude > 800 {
        if base == BiomeType::Forest || base == BiomeType::DenseForest {
            base
        } else {
            BiomeType::Mountain
        }
    } else {
        base
    }
}

/// Biome of any tile, sea included, given the biome of the map, the tile's
/// altitude and whether its height is below `0.52`.
pub open spec fn any_biome(base: BiomeType, altitude: i16, low_height: bool) -> BiomeType {
    if altitude < -500 {
        BiomeType::DeepOcean
    } else if altitude < -10 {
        BiomeType::Ocean
    } else if altitude < 5 && low_height {
        BiomeType::Beach
    } else if altitude < 10 {
        BiomeType::Coast
    } else if altitude > 1500 {
        BiomeType::HighMountain
    } else if altitude > 800 {
        BiomeType::Mountain
    } else {
        base
    }
}

/// Quality a tile of `biome` starts from before noise varies it.
pub open spec fn biome_base_quality(biome: BiomeType) -> u8 {
    match biome {
        BiomeType::Grassland => 75,
        BiomeType::Forest => 65,
        BiomeType::Coast => 70,
        BiomeType::Beach => 40,
        BiomeType::Mountain => 30,
        BiomeType::Desert => 20,
        BiomeType::Tundra => 25,
        BiomeType::Swamp => 50,
        _ => 10,
    }
}

/// Generator of the chunks of the world from its maps.
#[derive(Debug, Clone, Copy, PartialEq, Eq, Hash, Structural)]
pub struct ChunkGenerator;

impl ChunkGenerator {
    /// Coordinates of the tiles of `chunk_coord`, column by column: the order
    /// in which the chunk's tiles are generated.
    pub fn tile_coords(chunk_coord: ChunkCoord) -> (res: Vec<HexCoord>)
        requires
            chunk_fits(as_chunk_id(chunk_coord), CHUNK_SIZE as int),
        ensures
            res.len() == CHUNK_SIZE * CHUNK_SIZE,
            forall|i: int|
                0 <= i < res.len() ==> #[trigger] res@[i] == chunk_local_coord(
                    as_chunk_id(chunk_coord),
                    CHUNK_SIZE as int,
                    i,
                ),
    {
        chunk_hex_coords(ChunkId { x: chunk_coord.x, y: chunk_coord.y }, CHUNK_SIZE as i32)
    }

    /// All chunks of a world of `chunks_x` x `chunks_y` chunks, column by
    /// column: the order in which the world is generated. Each count is taken
    /// as `as i32`, so a count above `i32::MAX` gives no chunks.
    pub fn world_chunk_coords(chunks_x: u32, chunks_y: u32) -> (res: Vec<ChunkCoord>)
        requires
            range_count(chunks_x) * range_count(chunks_y) <= usize::MAX,
        ensures
            res.len() == range_count(chunks_x) * range_count(chunks_y),
            forall|i: int|
                0 <= i < res.len() ==> #[trigger] res@[i] == world_chunk_at(range_count(chunks_y), i),
    {
        let cx: i32 = if chunks_x <= 0x7fff_ffffu32 {
            chunks_x as i32
        } else {
            0
        };
        let cy: i32 = if chunks_y <= 0x7fff_ffffu32 {
            chunks_y as i32
        } else {
            0
        };
        let mut coords: Vec<ChunkCoord> = Vec::new();
        let mut x: i32 = 0;
        while x < cx
            invariant
                cx == range_count(chunks_x),
                cy == range_count(chunks_y),
                0 <= x <= cx,
                coords.len() == x * cy,
                forall|i: int|
                    0 <= i < coords.len() ==> #[trigger] coords@[i] == world_chunk_at(cy as int, i),
            decreases cx - x,
        {
            let mut y: i32 = 0;
            while y < cy
                invariant
                    cx == range_count(chunks_x),
                    cy == range_count(chunks_y),
                    0 <= x < cx,
                    0 <= y <= cy,
                    coords.len() == x * cy + y,
                    forall|i: int|
                        0 <= i < coords.len() ==> #[trigger] coords@[i] == world_chunk_at(cy as int, i),
                decreases cy - y,
            {
                proof {
                    let i = x * cy + y;
                    vstd::arithmetic::div_mod::lemma_fundamental_div_mod_converse(
                        i,
                        cy as int,
                        x as int,
                        y as int,
                    );
                    assert(x * cy + y < cx * cy) by (nonlinear_arith)
                        requires
                            0 <= x < cx,
                            0 <= y < cy,
                    ;
                }
                coords.push(ChunkCoord { x, y });
                y = y + 1;
            }
            proof {
                assert((x + 1) * cy == x * cy + cy) by (nonlinear_arith);
            }
            x = x + 1;
        }
        coords
    }

    /// Biome of a land tile: lakes in moist depressions, beaches and coasts
    /// near sea level, mountains high up (where forests stay forests), and
    /// the map's biome in between.
    pub fn refine_biome_land(base: BiomeType, altitude: i16, low_height: bool, moist: bool) -> (res: BiomeType)
        ensures
            res == land_biome(base, altitude, low_height, moist),
    {
        if altitude < -5 {
            if moist {
                return BiomeType::Lake;
            }
        }
        if altitude < 5 && low_height {
            return BiomeType::Beach;
        }
        if altitude < 10 {
            return BiomeType::Coast;
        }
        if altitude > 1500 {
            return match base {
                BiomeType::Forest | BiomeType::DenseForest => base,
                _ => BiomeType::HighMountain,
            };
        }
        if altitude > 800 {
            return match base {
                BiomeType::Forest | BiomeType::DenseForest => base,
                _ => BiomeType::Mountain,
            };
        }
        base
    }

    /// Biome of any tile: deep ocean, ocean, beach, coast, high mountain or
    /// mountain by altitude, and the map's biome in between.
    pub fn refine_biome(base: BiomeType, altitude: i16, low_height: bool) -> (res: BiomeType)
        ensures
            res == any_biome(base, altitude, low_height),
    {
        if altitude < -500 {
            BiomeType::DeepOcean
        } else if altitude < -10 {
            BiomeType::Ocean
        } else if altitude < 5 && low_height {
            BiomeType::Beach
        } else if altitude < 10 {
            BiomeType::Coast
        } else if altitude > 1500 {
            BiomeType::HighMountain
        } else if altitude > 800 {
            BiomeType::Mountain
        } else {
            base
        }
    }

    /// The tile of a hexagon that the land mask marks as sea: deep ocean at
    /// an altitude of -1000, of no quality, without a river.
    pub fn deep_ocean_tile(hex: HexCoord) -> (res: HexTile)
        ensures
            res == (HexTile {
                coord: hex,
                biome: BiomeType::DeepOcean,
                altitude: -1000i16,
                quality: 0u8,
                is_river: false,
                river_flow: None,
            }),
    {
        HexTile {
            coord: hex,
            biome: BiomeType::DeepOcean,
            altitude: -1000,
            quality: 0,
            is_river: false,
            river_flow: None,
        }
    }

    /// Quality of a tile of `biome` before noise varies it.
    pub fn base_quality(biome: BiomeType) -> (res: u8)
        ensures
            res == biome_base_quality(biome),
            res <= 75,
    {
        match biome {
            BiomeType::Grassland => 75,
            BiomeType::Forest => 65,
            BiomeType::Coast => 70,
            BiomeType::Beach => 40,
            BiomeType::Mountain => 30,
            BiomeType::Desert => 20,
            BiomeType::Tundra => 25,
            BiomeType::Swamp => 50,
            _ => 10,
        }
    }
}

/// How a land tile's biome follows from the map's biome and the tile's
/// altitude: a moist depression below -5 is a lake; else below 5 with a low
/// height a beach; else below 10 a coast; above 800 forests and dense
/// forests stay as they are, other biomes become mountains, or high
/// mountains above 1500; from 10 to 800 the map's biome stays.
pub proof fn land_biome_table(base: BiomeType, altitude: i16, low_height: bool, moist: bool)
    ensures
        altitude < -5 && moist ==> land_biome(base, altitude, low_height, moist) == BiomeType::Lake,
        !(altitude < -5 && moist) && altitude < 5 && low_height ==> land_biome(base, altitude, low_height, moist)
            == BiomeType::Beach,
        !(altitude < -5 && moist) && !(altitude < 5 && low_height) && altitude < 10 ==> land_biome(
            base,
            altitude,
            low_height,
            moist,
        ) == BiomeType::Coast,
        altitude > 800 && (base == BiomeType::Forest || base == BiomeType::DenseForest) ==> land_biome(
            base,
            altitude,
            low_height,
            moist,
        ) == base,
        800 < altitude <= 1500 && !(base == BiomeType::Forest || base == BiomeType::DenseForest) ==> land_biome(
            base,
            altitude,
            low_height,
            moist,
        ) == BiomeType::Mountain,
        altitude > 1500 && !(base == BiomeType::Forest || base == BiomeType::DenseForest) ==> land_biome(
            base,
            altitude,
            low_height,
            moist,
        ) == BiomeType::HighMountain,
        10 <= altitude <= 800 ==> land_biome(base, altitude, low_height, moist) == base,
{
}

/// How any tile's biome follows from the map's biome and the tile's
/// altitude: below -500 deep ocean; else below -10 ocean; else below 5 with
/// a low height a beach; else below 10 a coast; above 1500 a high mountain;
/// above 800 a mountain; from 10 to 800 the map's biome.
pub proof fn any_biome_table(base: BiomeType, altitude: i16, low_height: bool)
    ensures
        altitude < -500 ==> any_biome(base, altitude, low_height) == BiomeType::DeepOcean,
        -500 <= altitude < -10 ==> any_biome(base, altitude, low_height) == BiomeType::Ocean,
        -10 <= altitude < 5 && low_height ==> any_biome(base, altitude, low_height) == BiomeType::Beach,
        -10 <= altitude < 10 && !(altitude < 5 && low_height) ==> any_biome(base, altitude, low_height)
            == BiomeType::Coast,
        altitude > 1500 ==> any_biome(base, altitude, low_height) == BiomeType::HighMountain,
        800 < altitude <= 1500 ==> any_biome(base, altitude, low_height) == BiomeType::Mountain,
        10 <= altitude <= 800 ==> any_biome(base, altitude, low_height) == base,
{
}

/// Base qualities: grassland 75, coast 70, forest 65, swamp 50, beach 40,
/// mountain 30, tundra 25, desert 20, every other biome 10.
pub proof fn base_quality_table(biome: BiomeType)
    ensures
        biome == BiomeType::Grassland ==> biome_base_quality(biome) == 75,
        biome == BiomeType::Coast ==> biome_base_quality(biome) == 70,
        biome == BiomeType::Forest ==> biome_base_quality(biome) == 65,
        biome == BiomeType::Swamp ==> biome_base_quality(biome) == 50,
        biome == BiomeType::Beach ==> biome_base_quality(biome) == 40,
        biome == BiomeType::Mountain ==> biome_base_quality(biome) == 30,
        biome == BiomeType::Tundra ==> biome_base_quality(biome) == 25,
        biome == BiomeType::Desert ==> biome_base_quality(biome) == 20,
        !(biome == BiomeType::Grassland || biome == BiomeType::Coast || biome == BiomeType::Forest || biome
            == BiomeType::Swamp || biome == BiomeType::Beach || biome == BiomeType::Mountain || biome
            == BiomeType::Tundra || biome == BiomeType::Desert) ==> biome_base_quality(biome) == 10,
{
}

} // verus!
