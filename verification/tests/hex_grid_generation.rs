use living_landz::hex_grid::chunk::{generate_tile, Chunk};
use living_landz::hex_grid::generator::WorldGenerator;
use living_landz::hex_grid::CHUNK_SIZE;
use living_landz::shared::types::{BiomeType, ChunkId, HexCoord};

#[test]
fn hash_coord_exact_values() {
    let g = WorldGenerator::new(12345);
    assert_eq!(g.hash_coord(HexCoord::new(0, 0)), 3019483630911711457);
    assert_eq!(g.hash_coord(HexCoord::new(3, -7)), 7260698120656677807);
    assert_eq!(WorldGenerator::new(0).hash_coord(HexCoord::new(0, 0)), 0);
    assert_eq!(WorldGenerator::new(42).hash_coord(HexCoord::new(-1, -1)), 3439816668435232502);
}

#[test]
fn generate_tile_exact_values() {
    let g = WorldGenerator::new(12345);
    let t = g.generate_tile(HexCoord::new(0, 0));
    assert_eq!(t.biome, BiomeType::Coast);
    assert_eq!(t.altitude, -43);
    assert_eq!(t.quality, 57);
    let t = g.generate_tile(HexCoord::new(3, -7));
    assert_eq!(t.coord, HexCoord::new(3, -7));
    assert_eq!(t.biome, BiomeType::Tundra);
    assert_eq!(t.altitude, 307);
    assert_eq!(t.quality, 7);
    let t = WorldGenerator::new(0).generate_tile(HexCoord::new(0, 0));
    assert_eq!(t.biome, BiomeType::Ocean);
    assert_eq!(t.altitude, -500);
    assert_eq!(t.quality, 0);
    let t = WorldGenerator::new(42).generate_tile(HexCoord::new(-1, -1));
    assert_eq!(t.biome, BiomeType::Desert);
    assert_eq!(t.altitude, 2);
    assert_eq!(t.quality, 2);
}

#[test]
fn generation_is_deterministic() {
    let a = WorldGenerator::new(7);
    let b = WorldGenerator::new(7);
    for q in -5..5 {
        for r in -5..5 {
            assert_eq!(a.generate_tile(HexCoord::new(q, r)), b.generate_tile(HexCoord::new(q, r)));
        }
    }
}

#[test]
fn generate_chunk_lists_tiles_column_by_column() {
    let g = WorldGenerator::new(99);
    let id = ChunkId { x: -2, y: 3 };
    let tiles = g.generate_chunk(id);
    assert_eq!(tiles.len(), (CHUNK_SIZE * CHUNK_SIZE) as usize);
    assert_eq!(tiles[0].coord, HexCoord::new(-96, 144));
    assert_eq!(tiles[1].coord, HexCoord::new(-96, 145));
    assert_eq!(tiles[48].coord, HexCoord::new(-95, 144));
    assert_eq!(tiles[2303].coord, HexCoord::new(-49, 191));
    for t in &tiles {
        assert_eq!(*t, g.generate_tile(t.coord));
        assert_eq!(ChunkId::from_hex_coord(t.coord, CHUNK_SIZE), id);
        assert!(-500 <= t.altitude && t.altitude < 500);
        assert!(t.quality < 100);
    }
}

#[test]
fn chunk_new_is_placeholder_grassland() {
    let c = Chunk::new(ChunkId { x: 1, y: 0 }, 5);
    assert_eq!(c.id, ChunkId { x: 1, y: 0 });
    assert!(!c.dirty);
    assert_eq!(c.tiles.len(), 2304);
    assert_eq!(c.tiles[0].coord, HexCoord::new(48, 0));
    for t in &c.tiles {
        assert_eq!(*t, generate_tile(t.coord, 0));
        assert_eq!(t.biome, BiomeType::Grassland);
        assert_eq!(t.quality, 50);
        assert_eq!(t.altitude, 0);
        assert!(!t.has_water && !t.has_river);
    }
}

#[test]
fn chunk_get_tile_finds_by_coordinate() {
    let c = Chunk::new(ChunkId { x: 0, y: 0 }, 1);
    let t = c.get_tile(HexCoord::new(10, 20)).expect("tile in chunk");
    assert_eq!(t.coord, HexCoord::new(10, 20));
    assert!(c.get_tile(HexCoord::new(48, 0)).is_none());
    assert!(c.get_tile(HexCoord::new(-1, 0)).is_none());
}
