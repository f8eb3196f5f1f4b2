use living_landz::client::streaming::{process_server_message, request_chunks_around, square_chunks, ServerEvent};
use living_landz::client::visuals::{cells_around, tint_variation_percent, tree_variation};
use living_landz::client::world_cache::{coord_to_chunk, WorldCache};
use living_landz::shared::protocol::ServerMessage;
use living_landz::shared::types::{BiomeType, ChunkId, HexCoord, TileData};

fn tile(q: i32, r: i32) -> TileData {
    TileData { coord: HexCoord::new(q, r), biome: BiomeType::Forest, altitude: 12, quality: 60 }
}

#[test]
fn insert_marks_loaded_and_clears_request() {
    let mut cache = WorldCache::new();
    let id = ChunkId { x: 1, y: -1 };
    assert!(!cache.is_loaded(&id));
    cache.mark_requested(id);
    cache.mark_requested(id);
    assert!(cache.is_requested(&id));
    cache.insert_chunk(id, vec![tile(60, -60)], 1.5f32.to_bits());
    assert!(cache.is_loaded(&id));
    assert!(!cache.is_requested(&id));
    assert_eq!(cache.chunk_count(), 1);
    let c = cache.get_chunk(&id).unwrap();
    assert_eq!(c.id, id);
    assert_eq!(f32::from_bits(c.loaded_at), 1.5);
    cache.insert_chunk(id, vec![tile(61, -60), tile(62, -60)], 2.0f32.to_bits());
    assert_eq!(cache.chunk_count(), 1);
    assert_eq!(cache.get_chunk(&id).unwrap().tiles.len(), 2);
}

#[test]
fn get_tile_searches_the_holding_chunk() {
    let mut cache = WorldCache::default();
    cache.insert_chunk(ChunkId { x: 0, y: 0 }, vec![tile(3, 4), tile(5, 6)], 0);
    assert_eq!(cache.get_tile(HexCoord::new(5, 6)), Some(&tile(5, 6)));
    assert_eq!(cache.get_tile(HexCoord::new(7, 7)), None);
    assert_eq!(cache.get_tile(HexCoord::new(-1, 0)), None);
    assert_eq!(coord_to_chunk(HexCoord::new(-1, 60)), ChunkId { x: -1, y: 1 });
    assert_eq!(coord_to_chunk(HexCoord::new(59, 0)), ChunkId { x: 0, y: 0 });
}

#[test]
fn unload_keeps_chunks_within_distance() {
    let mut cache = WorldCache::new();
    for x in -3..=3 {
        cache.insert_chunk(ChunkId { x, y: 0 }, vec![], 0);
    }
    cache.insert_chunk(ChunkId { x: 0, y: 9 }, vec![], 0);
    cache.mark_requested(ChunkId { x: 50, y: 50 });
    cache.unload_distant(ChunkId { x: 0, y: 0 }, 2);
    assert_eq!(cache.chunk_count(), 5);
    assert!(cache.is_loaded(&ChunkId { x: -2, y: 0 }));
    assert!(!cache.is_loaded(&ChunkId { x: 3, y: 0 }));
    assert!(!cache.is_loaded(&ChunkId { x: 0, y: 9 }));
    assert!(cache.is_requested(&ChunkId { x: 50, y: 50 }));
    cache.unload_distant(ChunkId { x: 0, y: 0 }, 2);
    assert_eq!(cache.chunk_count(), 5);
    cache.unload_distant(ChunkId { x: 0, y: 0 }, -1);
    assert_eq!(cache.chunk_count(), 0);
}

#[test]
fn chunks_lists_every_loaded_chunk_once() {
    let mut cache = WorldCache::new();
    cache.insert_chunk(ChunkId { x: 2, y: 2 }, vec![], 0);
    cache.insert_chunk(ChunkId { x: 1, y: 1 }, vec![], 0);
    cache.insert_chunk(ChunkId { x: 2, y: 2 }, vec![tile(0, 0)], 0);
    let mut ids: Vec<(i32, i32)> = cache.chunks().iter().map(|c| (c.id.x, c.id.y)).collect();
    ids.sort();
    assert_eq!(ids, vec![(1, 1), (2, 2)]);
}

#[test]
fn requests_the_square_of_missing_chunks() {
    let mut cache = WorldCache::new();
    let asked = request_chunks_around(&mut cache, ChunkId { x: 0, y: 0 }, 1);
    let expected = [(-1, -1), (-1, 0), (-1, 1), (0, -1), (0, 0), (0, 1), (1, -1), (1, 0), (1, 1)];
    assert_eq!(asked.len(), 9);
    for i in 0..9 {
        assert_eq!((asked[i].x, asked[i].y), expected[i]);
        assert!(cache.is_requested(&asked[i]));
    }
    assert!(request_chunks_around(&mut cache, ChunkId { x: 0, y: 0 }, 1).is_empty());
    let more = request_chunks_around(&mut cache, ChunkId { x: 1, y: 0 }, 1);
    assert_eq!(more.iter().map(|c| (c.x, c.y)).collect::<Vec<_>>(), vec![(2, -1), (2, 0), (2, 1)]);
}

#[test]
fn request_skips_loaded_and_pending_chunks() {
    let mut cache = WorldCache::new();
    cache.insert_chunk(ChunkId { x: 5, y: 5 }, vec![], 0);
    cache.mark_requested(ChunkId { x: 4, y: 6 });
    let asked = request_chunks_around(&mut cache, ChunkId { x: 5, y: 5 }, 1);
    assert_eq!(asked.len(), 7);
    assert!(!asked.contains(&ChunkId { x: 5, y: 5 }));
    assert!(!asked.contains(&ChunkId { x: 4, y: 6 }));
    assert!(request_chunks_around(&mut cache, ChunkId { x: 5, y: 5 }, -3).is_empty());
    assert_eq!(request_chunks_around(&mut WorldCache::new(), ChunkId { x: 0, y: 0 }, 0), vec![ChunkId { x: 0, y: 0 }]);
}

#[test]
fn server_messages_update_the_cache() {
    let mut cache = WorldCache::new();
    cache.mark_requested(ChunkId { x: 0, y: 0 });
    assert_eq!(process_server_message(&mut cache, ServerMessage::LoginSuccess { player_id: 9 }, 0), ServerEvent::LoggedIn(9));
    assert_eq!(cache.chunk_count(), 0);
    let ev = process_server_message(&mut cache, ServerMessage::ChunkData { chunk_id: ChunkId { x: 0, y: 0 }, tiles: vec![tile(1, 1)], buildings: vec![] }, 3);
    assert_eq!(ev, ServerEvent::ChunkStored(ChunkId { x: 0, y: 0 }));
    assert!(cache.is_loaded(&ChunkId { x: 0, y: 0 }));
    assert!(!cache.is_requested(&ChunkId { x: 0, y: 0 }));
    assert_eq!(process_server_message(&mut cache, ServerMessage::Pong, 4), ServerEvent::Unhandled);
    assert_eq!(cache.chunk_count(), 1);
}

#[test]
fn grid_cells_around_the_camera() {
    let cells = cells_around(10, -4, 1);
    assert_eq!(cells, vec![(9, -5), (9, -4), (9, -3), (10, -5), (10, -4), (10, -3), (11, -5), (11, -4), (11, -3)]);
    assert_eq!(cells_around(0, 0, 0), vec![(0, 0)]);
    assert!(cells_around(0, 0, -2).is_empty());
    assert_eq!(cells_around(0, 0, 3).len(), 49);
}

#[test]
fn tint_and_tree_variations() {
    assert_eq!(tint_variation_percent(HexCoord::new(0, 0)), -10);
    assert_eq!(tint_variation_percent(HexCoord::new(1, 2)), 5);
    assert_eq!(tint_variation_percent(HexCoord::new(-3, 5)), -4);
    assert_eq!(tree_variation(13), 5);
    assert_eq!(tree_variation(u64::MAX), 7);
}

#[test]
fn square_chunks_in_column_order() {
    let sq = square_chunks(ChunkId { x: 10, y: -4 }, 1);
    let expected: Vec<ChunkId> = [(9, -5), (9, -4), (9, -3), (10, -5), (10, -4), (10, -3), (11, -5), (11, -4), (11, -3)]
        .iter()
        .map(|&(x, y)| ChunkId { x, y })
        .collect();
    assert_eq!(sq, expected);
    assert!(square_chunks(ChunkId { x: 0, y: 0 }, -1).is_empty());
}
