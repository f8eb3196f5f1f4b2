use living_landz::shared::buildings::{BuildingCategory, BuildingType, TreeAge, WoodType};
use living_landz::shared::types::{BiomeType, ChunkId, HexCoord};

fn hex_distance(a: HexCoord, b: HexCoord) -> i64 {
    let dq = a.q as i64 - b.q as i64;
    let dr = a.r as i64 - b.r as i64;
    (dq.abs() + dr.abs() + (dq + dr).abs()) / 2
}

#[test]
fn hex_coord_new_keeps_components() {
    let c = HexCoord::new(3, -7);
    assert_eq!(c.q, 3);
    assert_eq!(c.r, -7);
}

#[test]
fn neighbors_follow_hexx_direction_order() {
    let n = HexCoord::new(0, 0).neighbors();
    let expected = [(1, 0), (0, 1), (-1, 1), (-1, 0), (0, -1), (1, -1)];
    for i in 0..6 {
        assert_eq!((n[i].q, n[i].r), expected[i]);
    }
}

#[test]
fn neighbors_are_offsets_of_the_coordinate() {
    let c = HexCoord::new(5, -3);
    let n = c.neighbors();
    assert_eq!(n[0], HexCoord::new(6, -3));
    assert_eq!(n[2], HexCoord::new(4, -2));
    assert_eq!(n[5], HexCoord::new(6, -4));
}

#[test]
fn neighbors_are_adjacent_distinct_and_symmetric() {
    let c = HexCoord::new(-12, 40);
    let n = c.neighbors();
    for i in 0..6 {
        assert_eq!(hex_distance(c, n[i]), 1);
        assert_ne!(n[i], c);
        for j in 0..6 {
            if i != j {
                assert_ne!(n[i], n[j]);
            }
        }
        assert_eq!(n[i].neighbors()[(i + 3) % 6], c);
    }
}

#[test]
fn neighbors_near_the_edge_of_i32() {
    let c = HexCoord::new(i32::MAX - 1, i32::MIN + 1);
    let n = c.neighbors();
    assert_eq!(n[0], HexCoord::new(i32::MAX, i32::MIN + 1));
    assert_eq!(n[4], HexCoord::new(i32::MAX - 1, i32::MIN));
}

#[test]
fn chunk_id_from_hex_coord_floors() {
    assert_eq!(ChunkId::from_hex_coord(HexCoord::new(0, 0), 48), ChunkId { x: 0, y: 0 });
    assert_eq!(ChunkId::from_hex_coord(HexCoord::new(47, 47), 48), ChunkId { x: 0, y: 0 });
    assert_eq!(ChunkId::from_hex_coord(HexCoord::new(48, -1), 48), ChunkId { x: 1, y: -1 });
    assert_eq!(ChunkId::from_hex_coord(HexCoord::new(-48, -49), 48), ChunkId { x: -1, y: -2 });
    assert_eq!(ChunkId::from_hex_coord(HexCoord::new(i32::MIN, i32::MAX), 1), ChunkId { x: i32::MIN, y: i32::MAX });
}

#[test]
fn chunk_id_span_contains_the_coordinate() {
    for q in -130..130 {
        let c = ChunkId::from_hex_coord(HexCoord::new(q, 0), 60);
        assert!(c.x as i64 * 60 <= q as i64 && (q as i64) < (c.x as i64 + 1) * 60);
    }
}

#[test]
fn tree_building_type_names_each_wood() {
    let cases = [
        (WoodType::Oak, "oak_tree"),
        (WoodType::Pine, "pine_tree"),
        (WoodType::Birch, "birch_tree"),
        (WoodType::Maple, "maple_tree"),
        (WoodType::Spruce, "spruce_tree"),
        (WoodType::Cedar, "cedar_tree"),
    ];
    for (wood, name) in cases {
        let t = BuildingType::tree(wood);
        assert_eq!(t.category, BuildingCategory::Natural);
        assert_eq!(t.variant, name);
        assert_eq!(t.variant, format!("{:?}_tree", wood).to_lowercase());
    }
}

#[test]
fn tree_age_multipliers_in_tenths() {
    let ages = [TreeAge::Sapling, TreeAge::Young, TreeAge::Mature, TreeAge::Adult, TreeAge::Ancient, TreeAge::Secular];
    let health = [0.2f32, 0.5, 0.8, 1.0, 1.5, 2.0];
    let scale = [0.3f32, 0.6, 0.9, 1.0, 1.2, 1.4];
    for i in 0..6 {
        assert_eq!(ages[i].health_multiplier_tenths() as f32 / 10.0, health[i]);
        assert_eq!(ages[i].scale_multiplier_tenths() as f32 / 10.0, scale[i]);
    }
    for i in 1..6 {
        assert!(ages[i - 1].health_multiplier_tenths() < ages[i].health_multiplier_tenths());
        assert!(ages[i - 1].scale_multiplier_tenths() < ages[i].scale_multiplier_tenths());
    }
}

#[test]
fn wood_from_biome_and_altitude() {
    assert_eq!(WoodType::from_biome(BiomeType::Taiga, 0), WoodType::Spruce);
    assert_eq!(WoodType::from_biome(BiomeType::Taiga, 2000), WoodType::Spruce);
    assert_eq!(WoodType::from_biome(BiomeType::Forest, 401), WoodType::Birch);
    assert_eq!(WoodType::from_biome(BiomeType::Forest, 400), WoodType::Oak);
    assert_eq!(WoodType::from_biome(BiomeType::DenseForest, 301), WoodType::Pine);
    assert_eq!(WoodType::from_biome(BiomeType::DenseForest, 300), WoodType::Oak);
    assert_eq!(WoodType::from_biome(BiomeType::Desert, 900), WoodType::Oak);
    assert_eq!(WoodType::from_biome(BiomeType::Grassland, -5), WoodType::Oak);
}

#[test]
fn chunk_id_sizes_above_i32_max_wrap_to_negative_divisors() {
    // u32::MAX as i32 is -1; 0x8000_0000 as i32 is i32::MIN.
    assert_eq!(ChunkId::from_hex_coord(HexCoord::new(10, -10), u32::MAX), ChunkId { x: -10, y: 10 });
    assert_eq!(ChunkId::from_hex_coord(HexCoord::new(5, -5), 0x8000_0000), ChunkId { x: 0, y: 1 });
}
