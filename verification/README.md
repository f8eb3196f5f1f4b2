# living_landz

The verified core of Living Landz, a multiplayer game on a world of hexagonal
tiles split into square chunks.

- `src/` is the library, verified with Verus:
  - `shared/`: hex coordinates and their neighbours, chunk identifiers,
    biomes, tiles, buildings and trees, and the client/server messages;
  - `hex_grid/`: the hash-based world generator and the chunk of tiles;
  - `server/`: world maps as RGBA pixel buffers, the biome and quality rules
    of chunk generation, tree spawning rules, the tick scheduler, and the
    answers to client messages;
  - `client/`: the chunk cache, the choice of chunks to request around the
    view point, the host and port to connect to, and the integer parts of
    tile visuals.

  The chunk cache keeps its chunks and pending requests in `Vec`s under an
  invariant that no chunk identifier occurs twice, rather than in a
  `HashMap`/`HashSet`: keyed by the struct `ChunkId`, std's hash collections
  come with no specification in vstd from which even the length after one
  insertion follows. Building states carry their `f32` quantities as bit
  patterns, and chunk replies carry the buildings stored on the chunk.
- `app/` is the program around it: the WebSocket server and client, the
  PostgreSQL store, map loading, noise sampling and everything that works
  with floating point numbers. Given the argument `client` the program runs
  the client, otherwise the server.
- `tests/` exercises the library on concrete values.
