//! Building kinds, trees and their wood.

use vstd::prelude::*;

use super::types::{BiomeType, HexCoord};

verus! {

/// Broad family of a building.
#[derive(Debug, Clone, Copy, PartialEq, Eq, Hash, Structural)]
pub enum BuildingCategory {
    Natural,
    Structure,
    Infrastructure,
    Defense,
}

/// Actions a player can take on an existing building.
#[derive(Debug, Clone, Copy, PartialEq, Eq, Hash, Structural)]
pub enum BuildingActionType {
    StartDestruction,
    CancelDestruction,
    Repair,
    Upgrade,
}

/// Species of tree, which decides the wood it yields.
#[derive(Debug, Clone, Copy, PartialEq, Eq, Hash, Structural)]
pub enum WoodType {
    Oak,
    Pine,
    Birch,
    Maple,
    Spruce,
    Cedar,
}

/// Growth stage of a tree.
#[derive(Debug, Clone, Copy, PartialEq, Eq, Hash, Structural)]
pub enum TreeAge {
    Sapling,
    Young,
    Mature,
    Adult,
    Ancient,
    Secular,
}

/// Kind of a building: its category and a variant name such as `"oak_tree"`.
#[derive(Debug, Clone, PartialEq, Eq, Hash)]
pub struct BuildingType {
    pub category: BuildingCategory,
    pub variant: String,
}

/// State of a building. Its floating-point quantities (`health`,
/// `max_health`, `construction_progress`) are held as the bit patterns of
/// their `f32` values (`f32::to_bits`); times are seconds since the Unix epoch.
#[derive(Debug, Clone, PartialEq, Eq)]
pub struct Building {
    pub id: u64,
    pub building_type: BuildingType,
    pub coord: HexCoord,
    pub health: u32,
    pub max_health: u32,
    pub construction_progress: u32,
    pub owner_id: Option<u64>,
    pub created_at: u64,
    pub last_modified: u64,
}

/// What is particular to a tree. `density` and `yield_multiplier` are held
/// as the bit patterns of their `f32` values.
#[derive(Debug, Clone, Copy, PartialEq, Eq, Hash, Structural)]
pub struct TreeData {
    pub age: TreeAge,
    pub density: u32,
    pub wood_type: WoodType,
    pub yield_multiplier: u32,
}

/// A building, with its tree data when it is a tree.
#[derive(Debug, Clone, PartialEq, Eq)]
pub struct BuildingData {
    pub building: Building,
    pub tree_data: Option<TreeData>,
}

/// Variant name of the tree of a given wood: the lower-cased wood name
/// followed by `_tree`.
pub open spec fn tree_variant(wood: WoodType) -> Seq<char> {
    match wood {
        WoodType::Oak => "oak_tree"@,
        WoodType::Pine => "pine_tree"@,
        WoodType::Birch => "birch_tree"@,
        WoodType::Maple => "maple_tree"@,
        WoodType::Spruce => "spruce_tree"@,
        WoodType::Cedar => "cedar_tree"@,
    }
}

impl BuildingType {
    /// The natural building that a tree of `wood_type` is.
    pub fn tree(wood_type: WoodType) -> (res: Self)
        ensures
            res.category == BuildingCategory::Natural,
            res.variant@ == tree_variant(wood_type),
    {
        let name = match wood_type {
            WoodType::Oak => "oak_tree",
            WoodType::Pine => "pine_tree",
            WoodType::Birch => "birch_tree",
            WoodType::Maple => "maple_tree",
            WoodType::Spruce => "spruce_tree",
            WoodType::Cedar => "cedar_tree",
        };
        BuildingType { category: BuildingCategory::Natural, variant: name.to_owned() }
    }
}

/// Health multiplier of a tree of age `age`, in tenths (`2` stands for `0.2`).
pub open spec fn health_tenths(age: TreeAge) -> u8 {
    match age {
        TreeAge::Sapling => 2,
        TreeAge::Young => 5,
        TreeAge::Mature => 8,
        TreeAge::Adult => 10,
        TreeAge::Ancient => 15,
        TreeAge::Secular => 20,
    }
}

/// Visual scale multiplier of a tree of age `age`, in tenths.
pub open spec fn scale_tenths(age: TreeAge) -> u8 {
    match age {
        TreeAge::Sapling => 3,
        TreeAge::Young => 6,
        TreeAge::Mature => 9,
        TreeAge::Adult => 10,
        TreeAge::Ancient => 12,
        TreeAge::Secular => 14,
    }
}

impl TreeAge {
    /// Health multiplier in tenths: the multiplier is this value divided by ten.
    pub fn health_multiplier_tenths(&self) -> (res: u8)
        ensures
            res == health_tenths(*self),
    {
        match self {
            TreeAge::Sapling => 2,
            TreeAge::Young => 5,
            TreeAge::Mature => 8,
            TreeAge::Adult => 10,
            TreeAge::Ancient => 15,
            TreeAge::Secular => 20,
        }
    }

    /// Scale multiplier in tenths: the multiplier is this value divided by ten.
    pub fn scale_multiplier_tenths(&self) -> (res: u8)
        ensures
            res == scale_tenths(*self),
    {
        match self {
            TreeAge::Sapling => 3,
            TreeAge::Young => 6,
            TreeAge::Mature => 9,
            TreeAge::Adult => 10,
            TreeAge::Ancient => 12,
            TreeAge::Secular => 14,
        }
    }
}

/// Older trees are sturdier and larger: both multipliers grow strictly with
/// each age.
pub proof fn health_grows_with_age()
    ensures
        health_tenths(TreeAge::Sapling) < health_tenths(TreeAge::Young) < health_tenths(
            TreeAge::Mature,
        ) < health_tenths(TreeAge::Adult) < health_tenths(TreeAge::Ancient) < health_tenths(
            TreeAge::Secular,
        ),
        scale_tenths(TreeAge::Sapling) < scale_tenths(TreeAge::Young) < scale_tenths(
            TreeAge::Mature,
        ) < scale_tenths(TreeAge::Adult) < scale_tenths(TreeAge::Ancient) < scale_tenths(
            TreeAge::Secular,
        ),
{
}

/// Wood that grows in `biome` at `altitude`.
pub open spec fn wood_for(biome: BiomeType, altitude: i16) -> WoodType {
    match biome {
        BiomeType::Taiga => WoodType::Spruce,
        BiomeType::Forest => if altitude > 400 {
            WoodType::Birch
        } else {
            WoodType::Oak
        },
        BiomeType::DenseForest => if altitude > 300 {
            WoodType::Pine
        } else {
            WoodType::Oak
        },
        _ => WoodType::Oak,
    }
}

impl WoodType {
    /// Wood of the trees that grow in `biome` at `altitude`.
    pub fn from_biome(biome: BiomeType, altitude: i16) -> (res: Self)
        ensures
            res == wood_for(biome, altitude),
    {
        match biome {
            BiomeType::Taiga => WoodType::Spruce,
            BiomeType::Forest if altitude > 400 => WoodType::Birch,
            BiomeType::Forest => WoodType::Oak,
            BiomeType::DenseForest if altitude > 300 => WoodType::Pine,
            BiomeType::DenseForest => WoodType::Oak,
            _ => WoodType::Oak,
        }
    }
}

/// Which wood grows where: spruce in the taiga; in forests birch above 400
/// and oak up to 400; in dense forests pine above 300 and oak up to 300; oak
/// in every other biome, whatever the altitude.
pub proof fn wood_table(biome: BiomeType, altitude: i16)
    ensures
        biome == BiomeType::Taiga ==> wood_for(biome, altitude) == WoodType::Spruce,
        biome == BiomeType::Forest && altitude > 400 ==> wood_for(biome, altitude) == WoodType::Birch,
        biome == BiomeType::Forest && altitude <= 400 ==> wood_for(biome, altitude) == WoodType::Oak,
        biome == BiomeType::DenseForest && altitude > 300 ==> wood_for(biome, altitude) == WoodType::Pine,
        biome == BiomeType::DenseForest && altitude <= 300 ==> wood_for(biome, altitude) == WoodType::Oak,
        !(biome == BiomeType::Taiga || biome == BiomeType::Forest || biome == BiomeType::DenseForest) ==> wood_for(
            biome,
            altitude,
        ) == WoodType::Oak,
{
}

/// The tree variants are named after their wood.
pub proof fn tree_variant_names()
    ensures
        tree_variant(WoodType::Oak) == "oak_tree"@,
        tree_variant(WoodType::Pine) == "pine_tree"@,
        tree_variant(WoodType::Birch) == "birch_tree"@,
        tree_variant(WoodType::Maple) == "maple_tree"@,
        tree_variant(WoodType::Spruce) == "spruce_tree"@,
        tree_variant(WoodType::Cedar) == "cedar_tree"@,
{
}

/// The multipliers of each age, in tenths: health 0.2, 0.5, 0.8, 1.0, 1.5
/// and 2.0, scale 0.3, 0.6, 0.9, 1.0, 1.2 and 1.4, from sapling to secular;
/// an adult tree has both at exactly 1.
pub proof fn age_multiplier_table()
    ensures
        health_tenths(TreeAge::Sapling) == 2 && scale_tenths(TreeAge::Sapling) == 3,
        health_tenths(TreeAge::Young) == 5 && scale_tenths(TreeAge::Young) == 6,
        health_tenths(TreeAge::Mature) == 8 && scale_tenths(TreeAge::Mature) == 9,
        health_tenths(TreeAge::Adult) == 10 && scale_tenths(TreeAge::Adult) == 10,
        health_tenths(TreeAge::Ancient) == 15 && scale_tenths(TreeAge::Ancient) == 12,
        health_tenths(TreeAge::Secular) == 20 && scale_tenths(TreeAge::Secular) == 14,
{
}

} // verus!
