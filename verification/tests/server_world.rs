use living_landz::server::building_generator::BuildingGenerator;
use living_landz::server::components::{ChunkCoord, HexTile};
use living_landz::server::generation::ChunkGenerator;
use living_landz::server::resources::{biome_from_rgb, MapError, PixelMap, WorldMaps, CHUNK_SIZE};
use living_landz::shared::buildings::TreeAge;
use living_landz::shared::types::{BiomeType, HexCoord};

fn solid(width: u32, height: u32, rgba: [u8; 4]) -> PixelMap {
    let mut data = Vec::new();
    for _ in 0..(width * height) {
        data.extend_from_slice(&rgba);
    }
    PixelMap::from_rgba(width, height, data).expect("well-sized buffer")
}

#[test]
fn pixel_map_checks_buffer_size() {
    assert!(PixelMap::from_rgba(2, 2, vec![0; 16]).is_some());
    assert!(PixelMap::from_rgba(2, 2, vec![0; 15]).is_none());
    assert!(PixelMap::from_rgba(0, 5, vec![]).is_some());
    assert!(PixelMap::from_rgba(u32::MAX, u32::MAX, vec![]).is_none());
}

#[test]
fn pixel_map_reads_row_major_rgba() {
    let data: Vec<u8> = (0u8..24).collect();
    let m = PixelMap::from_rgba(3, 2, data).unwrap();
    assert_eq!(m.width(), 3);
    assert_eq!(m.height(), 2);
    assert_eq!(m.channel(0, 0, 0), 0);
    assert_eq!(m.channel(1, 0, 2), 6);
    assert_eq!(m.channel(0, 1, 0), 12);
    assert_eq!(m.channel(2, 1, 3), 23);
}

#[test]
fn world_maps_require_matching_sizes() {
    let ok = WorldMaps::from_maps(solid(120, 180, [0; 4]), solid(120, 180, [0; 4]), solid(1, 1, [0; 4]), 7).unwrap();
    assert_eq!(ok.config.map_width, 120);
    assert_eq!(ok.config.map_height, 180);
    assert_eq!(ok.config.chunks_x, 120 / CHUNK_SIZE);
    assert_eq!(ok.config.chunks_y, 3);
    assert_eq!(ok.config.seed, 7);
    let err = WorldMaps::from_maps(solid(120, 180, [0; 4]), solid(120, 179, [0; 4]), solid(120, 180, [0; 4]), 7);
    assert_eq!(err.err(), Some(MapError::DimensionMismatch));
    let err = WorldMaps::from_maps(solid(10, 10, [0; 4]), solid(11, 10, [0; 4]), solid(10, 10, [0; 4]), 7);
    assert_eq!(err.err(), Some(MapError::DimensionMismatch));
}

#[test]
fn land_lake_ocean_thresholds() {
    let mut data = Vec::new();
    let values = [0u8, 24, 25, 224, 225, 255];
    for v in values {
        data.extend_from_slice(&[v, 0, 0, 255]);
    }
    let binary = PixelMap::from_rgba(6, 1, data).unwrap();
    let maps = WorldMaps::from_maps(solid(6, 1, [128, 0, 0, 255]), solid(6, 1, [0; 4]), binary, 1).unwrap();
    let expect = [(false, false, true), (false, false, true), (false, true, false), (false, true, false), (true, false, false), (true, false, false)];
    for x in 0..6u32 {
        let got = (maps.is_land(x, 0), maps.is_lake(x, 0), maps.is_ocean(x, 0));
        assert_eq!(got, expect[x as usize]);
        assert_eq!([got.0, got.1, got.2].iter().filter(|b| **b).count(), 1);
    }
    assert_eq!(maps.height_value(3, 0), 128);
}

#[test]
fn biome_colours() {
    assert_eq!(biome_from_rgb(0, 0, 0), BiomeType::Ocean);
    assert_eq!(biome_from_rgb(210, 208, 130), BiomeType::Savanna);
    assert_eq!(biome_from_rgb(200, 214, 143), BiomeType::Grassland);
    assert_eq!(biome_from_rgb(182, 217, 93), BiomeType::Forest);
    assert_eq!(biome_from_rgb(125, 203, 52), BiomeType::Forest);
    assert_eq!(biome_from_rgb(41, 188, 86), BiomeType::Forest);
    assert_eq!(biome_from_rgb(64, 156, 67), BiomeType::Forest);
    assert_eq!(biome_from_rgb(11, 145, 49), BiomeType::Swamp);
    assert_eq!(biome_from_rgb(75, 107, 50), BiomeType::Taiga);
    assert_eq!(biome_from_rgb(251, 231, 159), BiomeType::Desert);
    assert_eq!(biome_from_rgb(181, 184, 135), BiomeType::ColdDesert);
    assert_eq!(biome_from_rgb(150, 120, 75), BiomeType::Tundra);
    assert_eq!(biome_from_rgb(213, 231, 235), BiomeType::Ice);
    assert_eq!(biome_from_rgb(1, 2, 3), BiomeType::Grassland);
    let maps = WorldMaps::from_maps(solid(2, 2, [0; 4]), solid(2, 2, [75, 107, 50, 255]), solid(2, 2, [0; 4]), 1).unwrap();
    assert_eq!(maps.sample_biome(1, 1), BiomeType::Taiga);
}

#[test]
fn chunk_coord_from_hex() {
    assert_eq!(ChunkCoord::from_hex(HexCoord::new(59, 60), 60), ChunkCoord { x: 0, y: 1 });
    assert_eq!(ChunkCoord::from_hex(HexCoord::new(-1, -60), 60), ChunkCoord { x: -1, y: -1 });
    assert_eq!(ChunkCoord::from_hex(HexCoord::new(-61, 0), 60), ChunkCoord { x: -2, y: 0 });
    assert_eq!(ChunkCoord::from_hex(HexCoord::new(7, -7), u32::MAX), ChunkCoord { x: -7, y: 7 });
}

#[test]
fn tile_coords_of_a_server_chunk() {
    let coords = ChunkGenerator::tile_coords(ChunkCoord { x: 1, y: -1 });
    assert_eq!(coords.len(), 3600);
    assert_eq!(coords[0], HexCoord::new(60, -60));
    assert_eq!(coords[1], HexCoord::new(60, -59));
    assert_eq!(coords[60], HexCoord::new(61, -60));
    assert_eq!(coords[3599], HexCoord::new(119, -1));
    for c in &coords {
        assert_eq!(ChunkCoord::from_hex(*c, CHUNK_SIZE), ChunkCoord { x: 1, y: -1 });
    }
}

#[test]
fn world_chunks_in_generation_order() {
    let coords = ChunkGenerator::world_chunk_coords(2, 3);
    let expected = [(0, 0), (0, 1), (0, 2), (1, 0), (1, 1), (1, 2)];
    assert_eq!(coords.len(), 6);
    for i in 0..6 {
        assert_eq!((coords[i].x, coords[i].y), expected[i]);
    }
    assert!(ChunkGenerator::world_chunk_coords(0, 5).is_empty());
    assert!(ChunkGenerator::world_chunk_coords(5, 0).is_empty());
    // A count above i32::MAX wraps to a negative bound: no chunks.
    assert!(ChunkGenerator::world_chunk_coords(0x8000_0000, 3).is_empty());
    assert!(ChunkGenerator::world_chunk_coords(2, u32::MAX).is_empty());
}

#[test]
fn refine_land_biomes() {
    assert_eq!(ChunkGenerator::refine_biome_land(BiomeType::Grassland, -6, false, true), BiomeType::Lake);
    assert_eq!(ChunkGenerator::refine_biome_land(BiomeType::Grassland, -5, true, true), BiomeType::Beach);
    assert_eq!(ChunkGenerator::refine_biome_land(BiomeType::Grassland, -6, true, false), BiomeType::Beach);
    assert_eq!(ChunkGenerator::refine_biome_land(BiomeType::Grassland, 4, false, false), BiomeType::Coast);
    assert_eq!(ChunkGenerator::refine_biome_land(BiomeType::Grassland, 9, true, false), BiomeType::Coast);
    assert_eq!(ChunkGenerator::refine_biome_land(BiomeType::Desert, 10, true, false), BiomeType::Desert);
    assert_eq!(ChunkGenerator::refine_biome_land(BiomeType::Desert, 801, false, false), BiomeType::Mountain);
    assert_eq!(ChunkGenerator::refine_biome_land(BiomeType::Desert, 1501, false, false), BiomeType::HighMountain);
    assert_eq!(ChunkGenerator::refine_biome_land(BiomeType::Forest, 1501, false, false), BiomeType::Forest);
    assert_eq!(ChunkGenerator::refine_biome_land(BiomeType::DenseForest, 900, false, false), BiomeType::DenseForest);
    assert_eq!(ChunkGenerator::refine_biome_land(BiomeType::Tundra, 800, false, false), BiomeType::Tundra);
}

#[test]
fn refine_any_biome() {
    assert_eq!(ChunkGenerator::refine_biome(BiomeType::Grassland, -501, false), BiomeType::DeepOcean);
    assert_eq!(ChunkGenerator::refine_biome(BiomeType::Grassland, -500, false), BiomeType::Ocean);
    assert_eq!(ChunkGenerator::refine_biome(BiomeType::Grassland, -10, true), BiomeType::Beach);
    assert_eq!(ChunkGenerator::refine_biome(BiomeType::Grassland, -10, false), BiomeType::Coast);
    assert_eq!(ChunkGenerator::refine_biome(BiomeType::Forest, 1501, false), BiomeType::HighMountain);
    assert_eq!(ChunkGenerator::refine_biome(BiomeType::Forest, 801, false), BiomeType::Mountain);
    assert_eq!(ChunkGenerator::refine_biome(BiomeType::Forest, 500, false), BiomeType::Forest);
}

#[test]
fn base_quality_per_biome() {
    assert_eq!(ChunkGenerator::base_quality(BiomeType::Grassland), 75);
    assert_eq!(ChunkGenerator::base_quality(BiomeType::Forest), 65);
    assert_eq!(ChunkGenerator::base_quality(BiomeType::Coast), 70);
    assert_eq!(ChunkGenerator::base_quality(BiomeType::Beach), 40);
    assert_eq!(ChunkGenerator::base_quality(BiomeType::Mountain), 30);
    assert_eq!(ChunkGenerator::base_quality(BiomeType::Desert), 20);
    assert_eq!(ChunkGenerator::base_quality(BiomeType::Tundra), 25);
    assert_eq!(ChunkGenerator::base_quality(BiomeType::Swamp), 50);
    assert_eq!(ChunkGenerator::base_quality(BiomeType::Ice), 10);
}

#[test]
fn trees_spawn_where_a_chance_exists() {
    let all = [
        BiomeType::Ocean, BiomeType::DeepOcean, BiomeType::Coast, BiomeType::Beach, BiomeType::Lake,
        BiomeType::Grassland, BiomeType::Forest, BiomeType::DenseForest, BiomeType::Mountain,
        BiomeType::HighMountain, BiomeType::Desert, BiomeType::ColdDesert, BiomeType::Savanna,
        BiomeType::Tundra, BiomeType::Taiga, BiomeType::Swamp, BiomeType::Ice, BiomeType::TropicalForest,
    ];
    for b in all {
        assert_eq!(BuildingGenerator::can_spawn_trees(b), BuildingGenerator::spawn_chance_percent(b).is_some());
    }
    assert!(BuildingGenerator::can_spawn_trees(BiomeType::Savanna));
    assert!(!BuildingGenerator::can_spawn_trees(BiomeType::Desert));
    assert_eq!(BuildingGenerator::spawn_chance_percent(BiomeType::DenseForest), Some(85));
    assert_eq!(BuildingGenerator::spawn_chance_percent(BiomeType::Forest), Some(60));
    assert_eq!(BuildingGenerator::spawn_chance_percent(BiomeType::Savanna), Some(10));
    assert_eq!(BuildingGenerator::spawn_chance_percent(BiomeType::Ice), None);
}

#[test]
fn tree_ages_by_altitude_and_noise_band() {
    assert_eq!(BuildingGenerator::tree_age_for(501, 0), TreeAge::Secular);
    assert_eq!(BuildingGenerator::tree_age_for(500, 0), TreeAge::Ancient);
    assert_eq!(BuildingGenerator::tree_age_for(301, 1), TreeAge::Ancient);
    assert_eq!(BuildingGenerator::tree_age_for(300, 1), TreeAge::Adult);
    assert_eq!(BuildingGenerator::tree_age_for(0, 2), TreeAge::Adult);
    assert_eq!(BuildingGenerator::tree_age_for(0, 3), TreeAge::Mature);
    assert_eq!(BuildingGenerator::tree_age_for(0, 4), TreeAge::Young);
    assert_eq!(BuildingGenerator::tree_age_for(900, 5), TreeAge::Sapling);
    assert_eq!(BuildingGenerator::tree_age_for(900, 200), TreeAge::Sapling);
}

#[test]
fn building_ids_are_deterministic_hashes() {
    assert_eq!(BuildingGenerator::generate_building_id(HexCoord::new(0, 0)), 12759653568561163613);
    assert_eq!(BuildingGenerator::generate_building_id(HexCoord::new(10, -4)), 18326822299142351651);
}

#[test]
fn timestamp_reads_the_clock() {
    let t = BuildingGenerator::timestamp().expect("clock after the epoch");
    assert!(t > 1_600_000_000);
}

#[test]
fn hex_tile_is_plain_data() {
    let t = HexTile { coord: HexCoord::new(1, 2), biome: BiomeType::Lake, altitude: -7, quality: 3, is_river: false, river_flow: None };
    let u = t;
    assert_eq!(t, u);
}

#[test]
fn forest_neighbors_are_counted() {
    let c = HexCoord::new(0, 0);
    let trees = vec![HexCoord::new(1, 0), HexCoord::new(0, 1), HexCoord::new(5, 5), HexCoord::new(0, 0), HexCoord::new(1, 0)];
    assert_eq!(BuildingGenerator::forest_neighbor_count(c, &trees), 2);
    let all: Vec<HexCoord> = c.neighbors().to_vec();
    assert_eq!(BuildingGenerator::forest_neighbor_count(c, &all), 6);
    assert_eq!(BuildingGenerator::forest_neighbor_count(c, &vec![]), 0);
}

#[test]
fn sea_tiles_are_deep_ocean() {
    let t = ChunkGenerator::deep_ocean_tile(HexCoord::new(4, -9));
    assert_eq!(
        t,
        HexTile {
            coord: HexCoord::new(4, -9),
            biome: BiomeType::DeepOcean,
            altitude: -1000,
            quality: 0,
            is_river: false,
            river_flow: None,
        }
    );
}
