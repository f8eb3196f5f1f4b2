use living_landz::hex_grid::generator::WorldGenerator;
use living_landz::server::components::{Chunk, ChunkCoord, HexTile};
use living_landz::server::network::{chunk_response, handle_client_message, tiles_from_chunk, ChunkLookup, NetworkServer};
use living_landz::server::tick::TickScheduler;
use living_landz::shared::buildings::{Building, BuildingCategory, BuildingData, BuildingType as BuildingKind, TreeAge, TreeData, WoodType};
use living_landz::shared::protocol::{ClientMessage, ServerMessage};
use living_landz::shared::types::{BiomeType, BuildingType, ChunkId, HexCoord, TileData};

#[test]
fn scheduler_starts_at_tick_zero() {
    let s = TickScheduler::new(10);
    assert_eq!(s.tick_interval_secs, 10);
    assert_eq!(s.current_tick, 0);
    assert_eq!(s.last_tick_nanos, 0);
    assert!(!s.should_tick());
    assert!(s.time_until_next_tick() <= 10_000_000_000);
    assert!(s.time_until_next_tick() > 0);
}

#[test]
fn zero_interval_is_always_due() {
    let s = TickScheduler::new(0);
    assert!(s.should_tick());
    assert_eq!(s.time_until_next_tick(), 0);
}

#[test]
fn scheduler_at_explicit_times() {
    let mut s = TickScheduler::new(2);
    assert!(!s.should_tick_at(1_999_999_999));
    assert!(s.should_tick_at(2_000_000_000));
    assert_eq!(s.time_until_next_tick_at(500_000_000), 1_500_000_000);
    assert_eq!(s.time_until_next_tick_at(7_000_000_000), 0);
    s.execute_tick_at(7_000_000_000);
    assert_eq!(s.current_tick, 1);
    assert_eq!(s.last_tick_nanos, 7_000_000_000);
    assert!(!s.should_tick_at(7_000_000_000));
    assert_eq!(s.time_until_next_tick_at(7_000_000_000), 2_000_000_000);
    assert_eq!(s.time_until_next_tick_at(6_000_000_000), 2_000_000_000);
    let mut world = bevy::ecs::world::World::new();
    s.execute_tick(&mut world);
    assert_eq!(s.current_tick, 2);
}

#[test]
fn network_server_new() {
    let s = NetworkServer::new("127.0.0.1".to_string(), 9001);
    assert_eq!(s.address, "127.0.0.1");
    assert_eq!(s.port, 9001);
}

fn stored_chunk() -> Chunk {
    Chunk {
        coord: ChunkCoord { x: 0, y: 0 },
        tiles: vec![
            HexTile { coord: HexCoord::new(0, 0), biome: BiomeType::Lake, altitude: -9, quality: 4, is_river: true, river_flow: Some(3) },
            HexTile { coord: HexCoord::new(0, 1), biome: BiomeType::Beach, altitude: 2, quality: 40, is_river: false, river_flow: None },
        ],
        generated_at: 17,
    }
}

#[test]
fn stored_tiles_become_network_tiles() {
    let tiles = tiles_from_chunk(&stored_chunk());
    assert_eq!(tiles, vec![
        TileData { coord: HexCoord::new(0, 0), biome: BiomeType::Lake, altitude: -9, quality: 4 },
        TileData { coord: HexCoord::new(0, 1), biome: BiomeType::Beach, altitude: 2, quality: 40 },
    ]);
}

#[test]
fn login_is_answered_with_player_id() {
    let g = WorldGenerator::new(12345);
    let res = handle_client_message(&ClientMessage::Login { username: "Player".to_string() }, 77, &g, vec![]);
    assert_eq!(res.len(), 1);
    assert!(matches!(res[0], ServerMessage::LoginSuccess { player_id: 77 }));
}

#[test]
fn ping_and_other_messages_get_pong() {
    let g = WorldGenerator::new(12345);
    let msgs = [
        ClientMessage::Ping,
        ClientMessage::MoveUnit { unit_id: 3, destination: HexCoord::new(1, 1) },
        ClientMessage::BuildAction { coord: HexCoord::new(0, 0), building_type: BuildingType::Farm },
    ];
    for m in msgs.iter() {
        let res = handle_client_message(m, 1, &g, vec![]);
        assert_eq!(res.len(), 1);
        assert!(matches!(res[0], ServerMessage::Pong));
    }
}

fn oak_at(q: i32, r: i32) -> BuildingData {
    BuildingData {
        building: Building {
            id: 42,
            building_type: BuildingKind { category: BuildingCategory::Natural, variant: "oak_tree".to_string() },
            coord: HexCoord::new(q, r),
            health: 80.0f32.to_bits(),
            max_health: 80.0f32.to_bits(),
            construction_progress: 1.0f32.to_bits(),
            owner_id: None,
            created_at: 1_700_000_000,
            last_modified: 1_700_000_000,
        },
        tree_data: Some(TreeData {
            age: TreeAge::Mature,
            density: 0.5f32.to_bits(),
            wood_type: WoodType::Oak,
            yield_multiplier: 0.4f32.to_bits(),
        }),
    }
}

#[test]
fn chunk_requests_use_stored_or_generated_tiles() {
    let g = WorldGenerator::new(12345);
    let ids = vec![ChunkId { x: 0, y: 0 }, ChunkId { x: 0, y: 0 }, ChunkId { x: 1, y: 2 }, ChunkId { x: -1, y: 0 }];
    let lookups = vec![
        ChunkLookup::Found(stored_chunk(), Some(vec![oak_at(0, 1)])),
        ChunkLookup::Found(stored_chunk(), None),
        ChunkLookup::Missing,
        ChunkLookup::Failed,
    ];
    let res = handle_client_message(&ClientMessage::RequestChunks { chunk_ids: ids.clone() }, 5, &g, lookups);
    assert_eq!(res.len(), 4);
    match &res[0] {
        ServerMessage::ChunkData { chunk_id, tiles, buildings } => {
            assert_eq!(*chunk_id, ids[0]);
            assert_eq!(*tiles, tiles_from_chunk(&stored_chunk()));
            assert_eq!(*buildings, vec![oak_at(0, 1)]);
        }
        _ => panic!("expected chunk data"),
    }
    match &res[1] {
        ServerMessage::ChunkData { chunk_id, tiles, buildings } => {
            assert_eq!(*chunk_id, ids[1]);
            assert_eq!(*tiles, tiles_from_chunk(&stored_chunk()));
            assert!(buildings.is_empty());
        }
        _ => panic!("expected chunk data"),
    }
    for i in 2..4 {
        match &res[i] {
            ServerMessage::ChunkData { chunk_id, tiles, buildings } => {
                assert_eq!(*chunk_id, ids[i]);
                assert_eq!(*tiles, g.generate_chunk(ids[i]));
                assert!(buildings.is_empty());
            }
            _ => panic!("expected chunk data"),
        }
    }
    let empty = handle_client_message(&ClientMessage::RequestChunks { chunk_ids: vec![] }, 5, &g, vec![]);
    assert!(empty.is_empty());
}

#[test]
fn single_chunk_response() {
    let g = WorldGenerator::new(1);
    match chunk_response(ChunkId { x: 3, y: 3 }, ChunkLookup::Missing, &g) {
        ServerMessage::ChunkData { chunk_id, tiles, buildings } => {
            assert!(buildings.is_empty());
            assert_eq!(chunk_id, ChunkId { x: 3, y: 3 });
            assert_eq!(tiles.len(), 2304);
            assert_eq!(tiles[0].coord, HexCoord::new(144, 144));
        }
        _ => panic!("expected chunk data"),
    }
}
