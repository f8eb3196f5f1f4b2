//! World configuration and the three world maps (height, biome, land mask)
//! held as plain RGBA pixel buffers.

use vstd::prelude::*;

use crate::shared::types::BiomeType;

verus! {

/// Number of hexagons along each side of a server chunk.
pub const CHUNK_SIZE: u32 = 60;

/// Size of the world maps and of the chunk grid laid over them.
#[derive(Debug, Clone, Copy, PartialEq, Eq, Hash, Structural)]
pub struct WorldConfig {
    pub map_width: u32,
    pub map_height: u32,
    pub chunks_x: u32,
    pub chunks_y: u32,
    pub seed: u32,
}

/// An image as rows of RGBA pixels, 4 bytes each, top row first.
#[derive(Debug)]
pub struct PixelMap {
    width: u32,
    height: u32,
    rgba: Vec<u8>,
}

/// Offset of channel `c` of pixel `(x, y)` in a row-major RGBA buffer of
/// width `width`.
pub open spec fn rgba_offset(width: int, x: int, y: int, c: int) -> int {
    (y * width + x) * 4 + c
}

impl PixelMap {
    #[verifier::type_invariant]
    spec fn well_formed(self) -> bool {
        self.rgba.len() == self.width * self.height * 4
    }

    pub closed spec fn spec_width(self) -> nat {
        self.width as nat
    }

    pub closed spec fn spec_height(self) -> nat {
        self.height as nat
    }

    /// Channel `c` (0 red, 1 green, 2 blue, 3 alpha) of pixel `(x, y)`.
    pub closed spec fn spec_channel(self, x: int, y: int, c: int) -> u8 {
        self.rgba@[rgba_offset(self.width as int, x, y, c)]
    }

    /// The map of size `width` x `height` whose pixels are `rgba`, or `None`
    /// when `rgba` does not hold exactly four bytes per pixel.
    pub fn from_rgba(width: u32, height: u32, rgba: Vec<u8>) -> (res: Option<Self>)
        ensures
            res is Some <==> rgba.len() == width * height * 4,
            res matches Some(m) ==> {
                &&& m.spec_width() == width
                &&& m.spec_height() == height
                &&& forall|x: int, y: int, c: int|
                    0 <= x < width && 0 <= y < height && 0 <= c < 4 ==> #[trigger] m.spec_channel(
                        x,
                        y,
                        c,
                    ) == rgba@[rgba_offset(width as int, x, y, c)]
            },
    {
        assert(width as int * height as int <= u64::MAX) by (nonlinear_arith)
            requires
                width <= u32::MAX,
                height <= u32::MAX,
        ;
        let pixels: u64 = width as u64 * height as u64;
        if pixels > (usize::MAX / 4) as u64 {
            assert(rgba.len() != width * height * 4);
            return None;
        }
        if rgba.len() == (pixels as usize) * 4 {
            Some(PixelMap { width, height, rgba })
        } else {
            None
        }
    }

    pub fn width(&self) -> (res: u32)
        ensures
            res == self.spec_width(),
    {
        self.width
    }

    pub fn height(&self) -> (res: u32)
        ensures
            res == self.spec_height(),
    {
        self.height
    }

    /// Channel `c` of pixel `(x, y)`.
    pub fn channel(&self, x: u32, y: u32, c: usize) -> (res: u8)
        requires
            x < self.spec_width(),
            y < self.spec_height(),
            c < 4,
        ensures
            res == self.spec_channel(x as int, y as int, c as int),
    {
        proof {
            use_type_invariant(self);
            let w = self.width as int;
            let h = self.height as int;
            assert(rgba_offset(w, x as int, y as int, c as int) < w * h * 4) by (nonlinear_arith)
                requires
                    0 <= x < w,
                    0 <= y < h,
                    0 <= c < 4,
            {
                assert(y * w + x < h * w) by (nonlinear_arith)
                    requires
                        0 <= x < w,
                        0 <= y < h,
                ;
            }
            assert(0 <= rgba_offset(w, x as int, y as int, c as int)) by (nonlinear_arith)
                requires
                    0 <= x < w,
                    0 <= y < h,
                    0 <= c < 4,
            ;
        }
        let offset = ((y as usize) * (self.width as usize) + (x as usize)) * 4 + c;
        self.rgba[offset]
    }
}

/// The map value is land.
pub open spec fn is_land_value(v: u8) -> bool {
    v >= 225
}

/// The map value is a lake.
pub open spec fn is_lake_value(v: u8) -> bool {
    25 <= v < 225
}

/// The map value is ocean.
pub open spec fn is_ocean_value(v: u8) -> bool {
    v < 25
}

/// Every value of the land mask is exactly one of land, lake and ocean.
pub proof fn land_lake_ocean_partition(v: u8)
    ensures
        is_land_value(v) || is_lake_value(v) || is_ocean_value(v),
        !(is_land_value(v) && is_lake_value(v)),
        !(is_land_value(v) && is_ocean_value(v)),
        !(is_lake_value(v) && is_ocean_value(v)),
{
}

/// Biome that a colour of the biome map stands for; unknown colours are grassland.
pub open spec fn biome_for_rgb(r: u8, g: u8, b: u8) -> BiomeType {
    if r == 0 && g == 0 && b == 0 {
        BiomeType::Ocean
    } else if r == 210 && g == 208 && b == 130 {
        BiomeType::Savanna
    } else if r == 200 && g == 214 && b == 143 {
        BiomeType::Grassland
    } else if (r == 182 && g == 217 && b == 93) || (r == 125 && g == 203 && b == 52) || (r == 41
        && g == 188 && b == 86) || (r == 64 && g == 156 && b == 67) {
        BiomeType::Forest
    } else if r == 11 && g == 145 && b == 49 {
        BiomeType::Swamp
    } else if r == 75 && g == 107 && b == 50 {
        BiomeType::Taiga
    } else if r == 251 && g == 231 && b == 159 {
        BiomeType::Desert
    } else if r == 181 && g == 184 && b == 135 {
        BiomeType::ColdDesert
    } else if r == 150 && g == 120 && b == 75 {
        BiomeType::Tundra
    } else if r == 213 && g == 231 && b == 235 {
        BiomeType::Ice
    } else {
        BiomeType::Grassland
    }
}

/// Biome that the colour `(r, g, b)` of the biome map stands for.
pub fn biome_from_rgb(r: u8, g: u8, b: u8) -> (res: BiomeType)
    ensures
        res == biome_for_rgb(r, g, b),
{
    match (r, g, b) {
        (0, 0, 0) => BiomeType::Ocean,
        (210, 208, 130) => BiomeType::Savanna,
        (200, 214, 143) => BiomeType::Grassland,
        (182, 217, 93) => BiomeType::Forest,
        (125, 203, 52) => BiomeType::Forest,
        (41, 188, 86) => BiomeType::Forest,
        (64, 156, 67) => BiomeType::Forest,
        (11, 145, 49) => BiomeType::Swamp,
        (75, 107, 50) => BiomeType::Taiga,
        (251, 231, 159) => BiomeType::Desert,
        (181, 184, 135) => BiomeType::ColdDesert,
        (150, 120, 75) => BiomeType::Tundra,
        (213, 231, 235) => BiomeType::Ice,
        _ => BiomeType::Grassland,
    }
}

/// Why world maps cannot be put together.
#[derive(Debug, Clone, Copy, PartialEq, Eq, Hash, Structural)]
pub enum MapError {
    /// The biome map and the height map differ in size.
    DimensionMismatch,
}

/// The height map, biome map and land mask of the world, with the
/// configuration derived from the height map.
#[derive(Debug)]
pub struct WorldMaps {
    pub heightmap: PixelMap,
    pub biome_map: PixelMap,
    pub binary_map: PixelMap,
    pub config: WorldConfig,
}

impl WorldMaps {
    /// Puts the loaded maps together. The biome map must have the size of the
    /// height map; the configuration takes the height map's size and lays
    /// whole chunks of `CHUNK_SIZE` over it.
    pub fn from_maps(heightmap: PixelMap, biome_map: PixelMap, binary_map: PixelMap, seed: u32) -> (res: Result<Self, MapError>)
        ensures
            res is Err <==> (biome_map.spec_width() != heightmap.spec_width()
                || biome_map.spec_height() != heightmap.spec_height()),
            res matches Err(e) ==> e == MapError::DimensionMismatch,
            res matches Ok(m) ==> {
                &&& m.heightmap == heightmap
                &&& m.biome_map == biome_map
                &&& m.binary_map == binary_map
                &&& m.config == WorldConfig {
                    map_width: heightmap.spec_width() as u32,
                    map_height: heightmap.spec_height() as u32,
                    chunks_x: (heightmap.spec_width() / CHUNK_SIZE as nat) as u32,
                    chunks_y: (heightmap.spec_height() / CHUNK_SIZE as nat) as u32,
                    seed,
                }
            },
    {
        let width = heightmap.width();
        let height = heightmap.height();
        if biome_map.width() != width || biome_map.height() != height {
            return Err(MapError::DimensionMismatch);
        }
        let config = WorldConfig {
            map_width: width,
            map_height: height,
            chunks_x: width / CHUNK_SIZE,
            chunks_y: height / CHUNK_SIZE,
            seed,
        };
        Ok(WorldMaps { heightmap, biome_map, binary_map, config })
    }

    /// Red channel of the height map at `(x, y)`: the height in 255ths.
    pub fn height_value(&self, pixel_x: u32, pixel_y: u32) -> (res: u8)
        requires
            pixel_x < self.heightmap.spec_width(),
            pixel_y < self.heightmap.spec_height(),
        ensures
            res == self.heightmap.spec_channel(pixel_x as int, pixel_y as int, 0),
    {
        self.heightmap.channel(pixel_x, pixel_y, 0)
    }

    pub fn is_land(&self, pixel_x: u32, pixel_y: u32) -> (res: bool)
        requires
            pixel_x < self.binary_map.spec_width(),
            pixel_y < self.binary_map.spec_height(),
        ensures
            res == is_land_value(self.binary_map.spec_channel(pixel_x as int, pixel_y as int, 0)),
    {
        self.binary_map.channel(pixel_x, pixel_y, 0) >= 225
    }

    pub fn is_lake(&self, pixel_x: u32, pixel_y: u32) -> (res: bool)
        requires
            pixel_x < self.binary_map.spec_width(),
            pixel_y < self.binary_map.spec_height(),
        ensures
            res == is_lake_value(self.binary_map.spec_channel(pixel_x as int, pixel_y as int, 0)),
    {
        let v = self.binary_map.channel(pixel_x, pixel_y, 0);
        v >= 25 && v < 225
    }

    pub fn is_ocean(&self, pixel_x: u32, pixel_y: u32) -> (res: bool)
        requires
            pixel_x < self.binary_map.spec_width(),
            pixel_y < self.binary_map.spec_height(),
        ensures
            res == is_ocean_value(self.binary_map.spec_channel(pixel_x as int, pixel_y as int, 0)),
    {
        self.binary_map.channel(pixel_x, pixel_y, 0) < 25
    }

    /// Biome that the biome map's colour at `(x, y)` stands for.
    pub fn sample_biome(&self, pixel_x: u32, pixel_y: u32) -> (res: BiomeType)
        requires
            pixel_x < self.biome_map.spec_width(),
            pixel_y < self.biome_map.spec_height(),
        ensures
            res == biome_for_rgb(
                self.biome_map.spec_channel(pixel_x as int, pixel_y as int, 0),
                self.biome_map.spec_channel(pixel_x as int, pixel_y as int, 1),
                self.biome_map.spec_channel(pixel_x as int, pixel_y as int, 2),
            ),
    {
        let r = self.biome_map.channel(pixel_x, pixel_y, 0);
        let g = self.biome_map.channel(pixel_x, pixel_y, 1);
        let b = self.biome_map.channel(pixel_x, pixel_y, 2);
        biome_from_rgb(r, g, b)
    }
}

/// Counters of a world generation run.
#[derive(Debug, Clone, Copy, Default, PartialEq, Eq, Hash, Structural)]
pub struct GenerationProgress {
    pub total_chunks: usize,
    pub generated: usize,
    pub saved: usize,
}

/// The land mask's thresholds: a value of 225 or more is land, 25 to 224 a
/// lake and below 25 ocean.
pub proof fn land_mask_thresholds(v: u8)
    ensures
        is_land_value(v) <==> v >= 225,
        is_lake_value(v) <==> 25 <= v <= 224,
        is_ocean_value(v) <==> v <= 24,
{
}

/// The colours of the biome map: black is ocean; (210, 208, 130) savanna;
/// (200, 214, 143) grassland; the four forest greens forest; (11, 145, 49)
/// swamp; (75, 107, 50) taiga; (251, 231, 159) desert; (181, 184, 135) cold
/// desert; (150, 120, 75) tundra; (213, 231, 235) ice; any other colour is
/// grassland, so no other colour gives a biome but grassland.
pub proof fn biome_colour_table(r: u8, g: u8, b: u8)
    ensures
        (r, g, b) == (0u8, 0u8, 0u8) ==> biome_for_rgb(r, g, b) == BiomeType::Ocean,
        (r, g, b) == (210u8, 208u8, 130u8) ==> biome_for_rgb(r, g, b) == BiomeType::Savanna,
        (r, g, b) == (200u8, 214u8, 143u8) ==> biome_for_rgb(r, g, b) == BiomeType::Grassland,
        (r, g, b) == (182u8, 217u8, 93u8) ==> biome_for_rgb(r, g, b) == BiomeType::Forest,
        (r, g, b) == (125u8, 203u8, 52u8) ==> biome_for_rgb(r, g, b) == BiomeType::Forest,
        (r, g, b) == (41u8, 188u8, 86u8) ==> biome_for_rgb(r, g, b) == BiomeType::Forest,
        (r, g, b) == (64u8, 156u8, 67u8) ==> biome_for_rgb(r, g, b) == BiomeType::Forest,
        (r, g, b) == (11u8, 145u8, 49u8) ==> biome_for_rgb(r, g, b) == BiomeType::Swamp,
        (r, g, b) == (75u8, 107u8, 50u8) ==> biome_for_rgb(r, g, b) == BiomeType::Taiga,
        (r, g, b) == (251u8, 231u8, 159u8) ==> biome_for_rgb(r, g, b) == BiomeType::Desert,
        (r, g, b) == (181u8, 184u8, 135u8) ==> biome_for_rgb(r, g, b) == BiomeType::ColdDesert,
        (r, g, b) == (150u8, 120u8, 75u8) ==> biome_for_rgb(r, g, b) == BiomeType::Tundra,
        (r, g, b) == (213u8, 231u8, 235u8) ==> biome_for_rgb(r, g, b) == BiomeType::Ice,
        biome_for_rgb(r, g, b) == BiomeType::Ocean ==> (r, g, b) == (0u8, 0u8, 0u8),
        biome_for_rgb(r, g, b) == BiomeType::Forest ==> ((r, g, b) == (182u8, 217u8, 93u8) || (r, g, b) == (
            125u8,
            203u8,
            52u8,
        ) || (r, g, b) == (41u8, 188u8, 86u8) || (r, g, b) == (64u8, 156u8, 67u8)),
        !(biome_for_rgb(r, g, b) == BiomeType::Ocean || biome_for_rgb(r, g, b) == BiomeType::Savanna
            || biome_for_rgb(r, g, b) == BiomeType::Grassland || biome_for_rgb(r, g, b) == BiomeType::Forest
            || biome_for_rgb(r, g, b) == BiomeType::Swamp || biome_for_rgb(r, g, b) == BiomeType::Taiga
            || biome_for_rgb(r, g, b) == BiomeType::Desert || biome_for_rgb(r, g, b) == BiomeType::ColdDesert
            || biome_for_rgb(r, g, b) == BiomeType::Tundra || biome_for_rgb(r, g, b) == BiomeType::Ice) ==> false,
{
}

} // verus!
