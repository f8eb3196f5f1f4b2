//! Where trees may grow, how likely they are, how old they get, and the
//! identifier and timestamp of a generated building.

use vstd::prelude::*;

use super::clock::{duration_secs, system_duration_since, system_now, unix_epoch};
use crate::shared::buildings::TreeAge;
use crate::shared::types::{has_room_for_neighbors, neighbor_of, BiomeType, HexCoord};

verus! {

/// Start value of the building-id hash.
pub const BUILDING_ID_SEED: u64 = 0x517cc1b727220a95;

/// Multiplier of the building-id hash.
pub const BUILDING_ID_MULTIPLIER: u64 = 0x3243f6a8885a308d;

/// Trees can grow in `biome`.
pub open spec fn tree_biome(biome: BiomeType) -> bool {
    ||| biome == BiomeType::Forest
    ||| biome == BiomeType::DenseForest
    ||| biome == BiomeType::Taiga
    ||| biome == BiomeType::Grassland
    ||| biome == BiomeType::Swamp
    ||| biome == BiomeType::Savanna
    ||| biome == BiomeType::Mountain
}

/// Chance, in percent, that a tree spawns on a tile of `biome`; `None` where
/// no tree grows.
pub open spec fn tree_chance(biome: BiomeType) -> Option<u8> {
    match biome {
        BiomeType::DenseForest => Some(85u8),
        BiomeType::Forest => Some(60u8),
        BiomeType::Taiga => Some(40u8),
        BiomeType::Grassland => Some(30u8),
        BiomeType::Swamp => Some(45u8),
        BiomeType::Savanna => Some(10u8),
        BiomeType::Mountain => Some(40u8),
        _ => None,
    }
}

/// Age of a tree at `altitude` whose age noise lies in band `band`: band 0
/// below `-0.3`, 1 below `0.0`, 2 below `0.2`, 3 below `0.5`, 4 below `0.7`,
/// and 5 (or more) otherwise.
pub open spec fn age_for(altitude: i16, band: u8) -> TreeAge {
    if altitude > 500 && band == 0 {
        TreeAge::Secular
    } else if altitude > 300 && band <= 1 {
        TreeAge::Ancient
    } else if band <= 2 {
        TreeAge::Adult
    } else if band <= 3 {
        TreeAge::Mature
    } else if band <= 4 {
        TreeAge::Young
    } else {
        TreeAge::Sapling
    }
}

/// Identifier of the building on `coord`: xor in `q`, multiply, xor in `r`,
/// multiply, with wrapping multiplications and sign-extended components.
pub open spec fn building_id_for(coord: HexCoord) -> u64 {
    ((BUILDING_ID_SEED ^ (coord.q as u64)).wrapping_mul(BUILDING_ID_MULTIPLIER) ^ (
    coord.r as u64)).wrapping_mul(BUILDING_ID_MULTIPLIER)
}

/// The six neighbours of `coord`, in hexx's direction order.
pub open spec fn neighbor_seq(coord: HexCoord) -> Seq<HexCoord> {
    Seq::new(6, |i: int| neighbor_of(coord, i))
}

/// Number of neighbours of `coord` that hold a tree.
pub open spec fn wooded_neighbors(coord: HexCoord, trees: Seq<HexCoord>) -> nat {
    neighbor_seq(coord).filter(|n: HexCoord| trees.contains(n)).len()
}

/// Generator of the buildings that the world starts with.
#[derive(Debug, Clone, Copy, PartialEq, Eq, Hash, Structural)]
pub struct BuildingGenerator;

impl BuildingGenerator {
    /// Trees can grow in `biome`.
    pub fn can_spawn_trees(biome: BiomeType) -> (res: bool)
        ensures
            res == tree_biome(biome),
    {
        matches!(
            biome,
            BiomeType::Forest | BiomeType::DenseForest | BiomeType::Taiga | BiomeType::Grassland
                | BiomeType::Swamp | BiomeType::Savanna | BiomeType::Mountain
        )
    }

    /// Chance in percent that a tree spawns on a tile of `biome`, or `None`
    /// when no tree grows there.
    pub fn spawn_chance_percent(biome: BiomeType) -> (res: Option<u8>)
        ensures
            res == tree_chance(biome),
    {
        match biome {
            BiomeType::DenseForest => Some(85),
            BiomeType::Forest => Some(60),
            BiomeType::Taiga => Some(40),
            BiomeType::Grassland => Some(30),
            BiomeType::Swamp => Some(45),
            BiomeType::Savanna => Some(10),
            BiomeType::Mountain => Some(40),
            _ => None,
        }
    }

    /// Age of a tree at `altitude` whose age noise lies in band `noise_band`.
    pub fn tree_age_for(altitude: i16, noise_band: u8) -> (res: TreeAge)
        ensures
            res == age_for(altitude, noise_band),
    {
        if altitude > 500 && noise_band == 0 {
            TreeAge::Secular
        } else if altitude > 300 && noise_band <= 1 {
            TreeAge::Ancient
        } else if noise_band <= 2 {
            TreeAge::Adult
        } else if noise_band <= 3 {
            TreeAge::Mature
        } else if noise_band <= 4 {
            TreeAge::Young
        } else {
            TreeAge::Sapling
        }
    }

    /// Deterministic identifier of the building on `coord`.
    pub fn generate_building_id(coord: HexCoord) -> (res: u64)
        ensures
            res == building_id_for(coord),
    {
        let mut hash: u64 = BUILDING_ID_SEED;
        hash = hash ^ (coord.q as u64);
        hash = hash.wrapping_mul(BUILDING_ID_MULTIPLIER);
        hash = hash ^ (coord.r as u64);
        hash = hash.wrapping_mul(BUILDING_ID_MULTIPLIER);
        hash
    }

    /// Number of the six neighbours of `coord` that hold a tree, `trees`
    /// listing the coordinates of all trees; the forest density of a tree
    /// grows with it.
    pub fn forest_neighbor_count(coord: HexCoord, trees: &Vec<HexCoord>) -> (res: usize)
        requires
            has_room_for_neighbors(coord),
        ensures
            res == wooded_neighbors(coord, trees@),
            res <= 6,
    {
        let neighbors = coord.neighbors();
        let ghost ns = neighbor_seq(coord);
        let ghost pred = |n: HexCoord| trees@.contains(n);
        let mut count: usize = 0;
        let mut i: usize = 0;
        while i < 6
            invariant
                0 <= i <= 6,
                ns == neighbor_seq(coord),
                pred == (|n: HexCoord| trees@.contains(n)),
                forall|k: int| 0 <= k < 6 ==> #[trigger] neighbors@[k] == neighbor_of(coord, k),
                count == ns.take(i as int).filter(pred).len(),
                count <= i,
            decreases 6 - i,
        {
            let n = neighbors[i];
            let mut found = false;
            let mut j: usize = 0;
            while j < trees.len()
                invariant
                    0 <= j <= trees.len(),
                    found <==> exists|m: int| 0 <= m < j && trees@[m] == n,
                decreases trees.len() - j,
            {
                if trees[j] == n {
                    found = true;
                }
                j = j + 1;
            }
            proof {
                assert(ns.take(i as int + 1).drop_last() =~= ns.take(i as int));
                assert(ns[i as int] == n);
                reveal(Seq::filter);
                assert(found == trees@.contains(n));
            }
            if found {
                count = count + 1;
            }
            i = i + 1;
        }
        assert(ns.take(6) =~= ns);
        count
    }

    /// Current time in whole seconds since the Unix epoch, or `None` when
    /// the system clock reads a time before the epoch.
    pub fn timestamp() -> (res: Option<u64>) {
        match system_duration_since(&system_now(), unix_epoch()) {
            Ok(d) => Some(duration_secs(&d)),
            Err(_) => None,
        }
    }
}

/// Trees spawn exactly in the biomes that have a spawn chance, and every
/// chance is a percentage.
pub proof fn spawn_biomes_have_chance(biome: BiomeType)
    ensures
        tree_biome(biome) <==> tree_chance(biome) is Some,
        tree_chance(biome) matches Some(p) ==> 0 < p <= 100,
{
}

/// Higher noise never gives an older tree: the age never rises with the band.
pub proof fn older_in_lower_bands(altitude: i16, band: u8)
    requires
        band < 5,
    ensures
        age_rank(age_for(altitude, (band + 1) as u8)) <= age_rank(age_for(altitude, band)),
{
}

/// Position of an age from the youngest (0) to the oldest (5).
pub open spec fn age_rank(age: TreeAge) -> int {
    match age {
        TreeAge::Sapling => 0,
        TreeAge::Young => 1,
        TreeAge::Mature => 2,
        TreeAge::Adult => 3,
        TreeAge::Ancient => 4,
        TreeAge::Secular => 5,
    }
}

/// Where trees grow and how likely: dense forest 85%, forest 60%, swamp
/// 45%, taiga 40%, mountain 40%, grassland 30%, savanna 10%; no tree grows
/// in any other biome.
pub proof fn tree_chance_table(biome: BiomeType)
    ensures
        biome == BiomeType::DenseForest ==> tree_chance(biome) == Some(85u8),
        biome == BiomeType::Forest ==> tree_chance(biome) == Some(60u8),
        biome == BiomeType::Swamp ==> tree_chance(biome) == Some(45u8),
        biome == BiomeType::Taiga ==> tree_chance(biome) == Some(40u8),
        biome == BiomeType::Mountain ==> tree_chance(biome) == Some(40u8),
        biome == BiomeType::Grassland ==> tree_chance(biome) == Some(30u8),
        biome == BiomeType::Savanna ==> tree_chance(biome) == Some(10u8),
        tree_biome(biome) <==> (biome == BiomeType::DenseForest || biome == BiomeType::Forest || biome
            == BiomeType::Swamp || biome == BiomeType::Taiga || biome == BiomeType::Mountain || biome
            == BiomeType::Grassland || biome == BiomeType::Savanna),
        !tree_biome(biome) ==> tree_chance(biome) is None,
{
}

/// How old a tree is, by its altitude and noise band: secular only above
/// 500 in band 0; ancient above 300 in bands 0 and 1 (when not secular);
/// otherwise adult in bands up to 2, mature in band 3, young in band 4 and
/// a sapling from band 5 on.
pub proof fn tree_age_table(altitude: i16, band: u8)
    ensures
        altitude > 500 && band == 0 ==> age_for(altitude, band) == TreeAge::Secular,
        300 < altitude <= 500 && band <= 1 ==> age_for(altitude, band) == TreeAge::Ancient,
        altitude > 500 && band == 1 ==> age_for(altitude, band) == TreeAge::Ancient,
        altitude <= 300 && band <= 2 ==> age_for(altitude, band) == TreeAge::Adult,
        band == 2 ==> age_for(altitude, band) == TreeAge::Adult,
        band == 3 ==> age_for(altitude, band) == TreeAge::Mature,
        band == 4 ==> age_for(altitude, band) == TreeAge::Young,
        band >= 5 ==> age_for(altitude, band) == TreeAge::Sapling,
        age_for(altitude, band) == TreeAge::Secular ==> altitude > 500,
        age_for(altitude, band) == TreeAge::Ancient ==> altitude > 300,
{
}

} // verus!
