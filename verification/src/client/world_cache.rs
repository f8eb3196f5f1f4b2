//! The client's cache of loaded chunks and of chunks already requested.

use vstd::prelude::*;

use crate::shared::types::{abs_int, chunk_index, div_euclid_i32, ChunkId, HexCoord, TileData};

verus! {

/// Side of a chunk as the client's cache files tiles.
pub const CHUNK_SIZE: i32 = 60;

/// The tiles of one chunk and when they arrived (an `f32` number of seconds
/// since start-up, held as its bit pattern).
#[derive(Debug, Clone)]
pub struct ChunkData {
    pub id: ChunkId,
    pub tiles: Vec<TileData>,
    pub loaded_at: u32,
}

/// No two chunks of `s` have the same identifier.
pub open spec fn unique_ids(s: Seq<ChunkData>) -> bool {
    forall|i: int, j: int| 0 <= i < s.len() && 0 <= j < s.len() && i != j ==> s[i].id != s[j].id
}

/// Some chunk of `s` has identifier `id`.
pub open spec fn holds_id(s: Seq<ChunkData>, id: ChunkId) -> bool {
    exists|i: int| 0 <= i < s.len() && s[i].id == id
}

/// A position of the chunk with identifier `id` in `s`.
pub open spec fn position_of(s: Seq<ChunkData>, id: ChunkId) -> int {
    choose|i: int| 0 <= i < s.len() && s[i].id == id
}

/// What the cache keeps of a chunk: its tiles and when they arrived.
pub open spec fn entry_of(c: ChunkData) -> (Seq<TileData>, u32) {
    (c.tiles@, c.loaded_at)
}

/// The chunks of `s` by identifier.
pub open spec fn chunk_map(s: Seq<ChunkData>) -> Map<ChunkId, (Seq<TileData>, u32)> {
    Map::new(|id: ChunkId| holds_id(s, id), |id: ChunkId| entry_of(s[position_of(s, id)]))
}

/// In a list with unique identifiers, the map gives each listed chunk under its identifier.
pub proof fn chunk_map_at(s: Seq<ChunkData>, i: int)
    requires
        unique_ids(s),
        0 <= i < s.len(),
    ensures
        chunk_map(s).dom().contains(s[i].id),
        chunk_map(s)[s[i].id] == entry_of(s[i]),
{
    assert(holds_id(s, s[i].id));
    let j = position_of(s, s[i].id);
    assert(s[j].id == s[i].id);
}

/// The identifiers of the chunks of `s`, in order.
pub open spec fn id_seq(s: Seq<ChunkData>) -> Seq<ChunkId> {
    s.map_values(|c: ChunkData| c.id)
}

/// The map of a list with unique identifiers has as many entries as the list.
pub proof fn chunk_map_len(s: Seq<ChunkData>)
    requires
        unique_ids(s),
    ensures
        chunk_map(s).dom().finite(),
        chunk_map(s).dom().len() == s.len(),
{
    let ids = id_seq(s);
    assert(ids.no_duplicates()) by {
        assert forall|i: int, j: int| 0 <= i < ids.len() && 0 <= j < ids.len() && i != j implies ids[i] != ids[j] by {
            assert(ids[i] == s[i].id && ids[j] == s[j].id);
        }
    }
    ids.unique_seq_to_set();
    assert(chunk_map(s).dom() =~= ids.to_set()) by {
        assert forall|id: ChunkId| chunk_map(s).dom().contains(id) implies ids.to_set().contains(id) by {
            let i = choose|i: int| 0 <= i < s.len() && s[i].id == id;
            assert(ids[i] == id);
        }
        assert forall|id: ChunkId| ids.to_set().contains(id) implies chunk_map(s).dom().contains(id) by {
            let i = choose|i: int| 0 <= i < ids.len() && ids[i] == id;
            assert(s[i].id == id);
        }
    }
    vstd::seq_lib::seq_to_set_is_finite(ids);
}

/// Index of the chunk of side `CHUNK_SIZE` holding `coord`.
pub open spec fn cache_chunk_of(coord: HexCoord) -> ChunkId {
    ChunkId {
        x: chunk_index(coord.q as int, CHUNK_SIZE as int) as i32,
        y: chunk_index(coord.r as int, CHUNK_SIZE as int) as i32,
    }
}

/// The chunk of the cache that holds `coord`.
pub fn coord_to_chunk(coord: HexCoord) -> (res: ChunkId)
    ensures
        res == cache_chunk_of(coord),
{
    ChunkId { x: div_euclid_i32(coord.q, CHUNK_SIZE), y: div_euclid_i32(coord.r, CHUNK_SIZE) }
}

/// `i` is the index of the first tile of `tiles` at `coord`.
pub open spec fn first_tile_data_at(tiles: Seq<TileData>, coord: HexCoord, i: int) -> bool {
    &&& 0 <= i < tiles.len()
    &&& tiles[i].coord == coord
    &&& forall|j: int| 0 <= j < i ==> tiles[j].coord != coord
}

/// `|a - b|` can be computed in `i32` without overflow.
pub open spec fn distance_fits(a: i32, b: i32) -> bool {
    i32::MIN < a - b <= i32::MAX
}

/// Chunk `id` lies within `max_distance` chunks of `center` along both axes.
pub open spec fn within_distance(id: ChunkId, center: ChunkId, max_distance: i32) -> bool {
    &&& -max_distance <= id.x - center.x <= max_distance
    &&& -max_distance <= id.y - center.y <= max_distance
}

/// The chunks within `max_distance` chunks of `center` along both axes.
pub open spec fn near_set(center: ChunkId, max_distance: i32) -> Set<ChunkId> {
    Set::new(|id: ChunkId| within_distance(id, center, max_distance))
}

impl ChunkData {
    /// A copy of the chunk data.
    pub fn clone_data(&self) -> (res: Self)
        ensures
            res.id == self.id,
            entry_of(res) == entry_of(*self),
    {
        let mut tiles: Vec<TileData> = Vec::new();
        let mut i: usize = 0;
        while i < self.tiles.len()
            invariant
                0 <= i <= self.tiles.len(),
                tiles@ == self.tiles@.take(i as int),
            decreases self.tiles.len() - i,
        {
            tiles.push(self.tiles[i]);
            i = i + 1;
            assert(tiles@ =~= self.tiles@.take(i as int));
        }
        assert(tiles@ =~= self.tiles@);
        ChunkData { id: self.id, tiles, loaded_at: self.loaded_at }
    }
}

/// Loaded chunks by identifier, and the identifiers requested from the server
/// whose data has not arrived yet.
#[derive(Debug)]
pub struct WorldCache {
    chunks: Vec<ChunkData>,
    requested: Vec<ChunkId>,
}

impl WorldCache {
    #[verifier::type_invariant]
    spec fn well_formed(self) -> bool {
        &&& unique_ids(self.chunks@)
        &&& self.requested@.no_duplicates()
    }

    /// The loaded chunks, by identifier.
    pub closed spec fn loaded(self) -> Map<ChunkId, (Seq<TileData>, u32)> {
        chunk_map(self.chunks@)
    }

    /// The chunks requested and not yet arrived.
    pub closed spec fn pending(self) -> Set<ChunkId> {
        self.requested@.to_set()
    }

    /// An empty cache.
    pub fn new() -> (res: Self)
        ensures
            res.loaded() == Map::<ChunkId, (Seq<TileData>, u32)>::empty(),
            res.pending() == Set::<ChunkId>::empty(),
    {
        let res = WorldCache { chunks: Vec::new(), requested: Vec::new() };
        assert(res.loaded() =~= Map::<ChunkId, (Seq<TileData>, u32)>::empty());
        assert(res.pending() =~= Set::<ChunkId>::empty());
        res
    }

    /// Position of chunk `id` in the list of loaded chunks.
    fn find_chunk(&self, id: &ChunkId) -> (res: Option<usize>)
        ensures
            res is None <==> !holds_id(self.chunks@, *id),
            res matches Some(i) ==> i < self.chunks.len() && self.chunks@[i as int].id == *id,
    {
        let mut i: usize = 0;
        while i < self.chunks.len()
            invariant
                0 <= i <= self.chunks.len(),
                forall|j: int| 0 <= j < i ==> self.chunks@[j].id != *id,
            decreases self.chunks.len() - i,
        {
            if self.chunks[i].id == *id {
                return Some(i);
            }
            i = i + 1;
        }
        None
    }

    /// Position of `id` in the list of requested chunks.
    fn find_requested(&self, id: &ChunkId) -> (res: Option<usize>)
        ensures
            res is None <==> !self.requested@.contains(*id),
            res matches Some(i) ==> i < self.requested.len() && self.requested@[i as int] == *id,
    {
        let mut i: usize = 0;
        while i < self.requested.len()
            invariant
                0 <= i <= self.requested.len(),
                forall|j: int| 0 <= j < i ==> self.requested@[j] != *id,
            decreases self.requested.len() - i,
        {
            if self.requested[i] == *id {
                return Some(i);
            }
            i = i + 1;
        }
        None
    }

    /// Stores the tiles of chunk `id`, replacing what was stored for it, and
    /// takes `id` off the pending requests.
    pub fn insert_chunk(&mut self, id: ChunkId, tiles: Vec<TileData>, time: u32)
        ensures
            final(self).loaded() == old(self).loaded().insert(id, (tiles@, time)),
            final(self).pending() == old(self).pending().remove(id),
    {
        proof {
            use_type_invariant(&*self);
        }
        let ghost old_chunks = self.chunks@;
        let ghost old_requested = self.requested@;
        let data = ChunkData { id, tiles, loaded_at: time };
        let ghost d = data;
        let found = self.find_chunk(&id);
        let mut chunks: Vec<ChunkData> = Vec::new();
        std::mem::swap(&mut chunks, &mut self.chunks);
        match found {
            Some(i) => {
                chunks.set(i, data);
            },
            None => {
                chunks.push(data);
            },
        }
        proof {
            let s = chunks@;
            let pos: int = match found {
                Some(i) => i as int,
                None => old_chunks.len() as int,
            };
            assert(s[pos] == d);
            assert(forall|j: int| 0 <= j < s.len() && j != pos ==> s[j] == old_chunks[j]);
            assert(s.len() == old_chunks.len() || (s.len() == old_chunks.len() + 1 && pos == old_chunks.len()));
            assert(found is None ==> !holds_id(old_chunks, id));
            assert(unique_ids(s)) by {
                assert forall|a: int, b: int| 0 <= a < s.len() && 0 <= b < s.len() && a != b implies s[a].id != s[b].id by {
                    if a != pos && b != pos {
                        assert(s[a] == old_chunks[a] && s[b] == old_chunks[b]);
                    } else if a == pos {
                        assert(s[b] == old_chunks[b]);
                        if found is Some {
                            assert(old_chunks[pos].id == id);
                        }
                    } else {
                        assert(s[a] == old_chunks[a]);
                        if found is Some {
                            assert(old_chunks[pos].id == id);
                        }
                    }
                }
            }
            assert forall|k: ChunkId| #![auto] chunk_map(s).dom().contains(k) <==> chunk_map(
                old_chunks,
            ).insert(id, entry_of(d)).dom().contains(k) by {
                if holds_id(s, k) {
                    let j = choose|j: int| 0 <= j < s.len() && s[j].id == k;
                    if j != pos {
                        assert(old_chunks[j].id == k);
                    }
                }
                if holds_id(old_chunks, k) {
                    let j = choose|j: int| 0 <= j < old_chunks.len() && old_chunks[j].id == k;
                    if j != pos {
                        assert(s[j].id == k);
                    } else {
                        assert(s[pos].id == id);
                    }
                }
                if k == id {
                    assert(s[pos].id == k);
                }
            }
            assert forall|k: ChunkId| #[trigger] chunk_map(s).dom().contains(k) implies chunk_map(s)[k]
                == chunk_map(old_chunks).insert(id, entry_of(d))[k] by {
                let j = choose|j: int| 0 <= j < s.len() && s[j].id == k;
                chunk_map_at(s, j);
                if k != id {
                    assert(j != pos);
                    assert(old_chunks[j] == s[j]);
                    chunk_map_at(old_chunks, j);
                }
            }
            assert(chunk_map(s) =~= chunk_map(old_chunks).insert(id, entry_of(d)));
        }
        self.chunks = chunks;
        match self.find_requested(&id) {
            Some(k) => {
                let mut requested: Vec<ChunkId> = Vec::new();
                std::mem::swap(&mut requested, &mut self.requested);
                requested.remove(k);
                proof {
                    let r = requested@;
                    assert(r =~= old_requested.remove(k as int));
                    assert forall|a: ChunkId| #![auto] r.to_set().contains(a) <==> old_requested.to_set().remove(id).contains(a) by {
                        if r.contains(a) {
                            let j = choose|j: int| 0 <= j < r.len() && r[j] == a;
                            if j < k {
                                assert(old_requested[j] == a);
                            } else {
                                assert(old_requested[j + 1] == a);
                            }
                        }
                        if old_requested.contains(a) && a != id {
                            let j = choose|j: int| 0 <= j < old_requested.len() && old_requested[j] == a;
                            if j < k {
                                assert(r[j] == a);
                            } else {
                                assert(r[j - 1] == a);
                            }
                        }
                    }
                    assert(r.to_set() =~= old_requested.to_set().remove(id));
                    assert(r.no_duplicates()) by {
                        assert forall|a: int, b: int| 0 <= a < r.len() && 0 <= b < r.len() && a != b implies r[a] != r[b] by {
                            let oa = if a < k { a } else { a + 1 };
                            let ob = if b < k { b } else { b + 1 };
                            assert(r[a] == old_requested[oa] && r[b] == old_requested[ob]);
                        }
                    }
                }
                self.requested = requested;
            },
            None => {
                assert(self.requested@.to_set() =~= old_requested.to_set().remove(id));
            },
        }
    }

    /// The tiles stored for chunk `id`.
    pub fn get_chunk(&self, id: &ChunkId) -> (res: Option<&ChunkData>)
        ensures
            res is Some <==> self.loaded().dom().contains(*id),
            res matches Some(c) ==> c.id == *id && entry_of(*c) == self.loaded()[*id],
    {
        proof {
            use_type_invariant(self);
        }
        match self.find_chunk(id) {
            Some(i) => {
                proof {
                    chunk_map_at(self.chunks@, i as int);
                }
                Some(&self.chunks[i])
            },
            None => None,
        }
    }

    /// The first tile at `coord` of the loaded chunk that holds `coord`.
    pub fn get_tile(&self, coord: HexCoord) -> (res: Option<&TileData>)
        ensures
            res is Some <==> (self.loaded().dom().contains(cache_chunk_of(coord)) && exists|i: int|
                0 <= i < self.loaded()[cache_chunk_of(coord)].0.len()
                    && self.loaded()[cache_chunk_of(coord)].0[i].coord == coord),
            res matches Some(t) ==> exists|i: int|
                first_tile_data_at(self.loaded()[cache_chunk_of(coord)].0, coord, i)
                    && self.loaded()[cache_chunk_of(coord)].0[i] == *t,
    {
        let chunk_id = coord_to_chunk(coord);
        match self.get_chunk(&chunk_id) {
            None => None,
            Some(chunk) => {
                let mut i: usize = 0;
                while i < chunk.tiles.len()
                    invariant
                        0 <= i <= chunk.tiles.len(),
                        chunk_id == cache_chunk_of(coord),
                        self.loaded().dom().contains(chunk_id),
                        entry_of(*chunk) == self.loaded()[chunk_id],
                        forall|j: int| 0 <= j < i ==> chunk.tiles@[j].coord != coord,
                    decreases chunk.tiles.len() - i,
                {
                    if chunk.tiles[i].coord == coord {
                        assert(first_tile_data_at(chunk.tiles@, coord, i as int));
                        assert(self.loaded()[cache_chunk_of(coord)].0[i as int].coord == coord);
                        return Some(&chunk.tiles[i]);
                    }
                    i = i + 1;
                }
                None
            },
        }
    }

    /// Chunk `id` is loaded.
    pub fn is_loaded(&self, id: &ChunkId) -> (res: bool)
        ensures
            res == self.loaded().dom().contains(*id),
    {
        self.find_chunk(id).is_some()
    }

    /// Chunk `id` was requested and has not arrived.
    pub fn is_requested(&self, id: &ChunkId) -> (res: bool)
        ensures
            res == self.pending().contains(*id),
    {
        self.find_requested(id).is_some()
    }

    /// Records that chunk `id` was requested.
    pub fn mark_requested(&mut self, id: ChunkId)
        ensures
            final(self).pending() == old(self).pending().insert(id),
            final(self).loaded() == old(self).loaded(),
    {
        proof {
            use_type_invariant(&*self);
        }
        let ghost old_requested = self.requested@;
        if self.find_requested(&id).is_none() {
            let mut requested: Vec<ChunkId> = Vec::new();
            std::mem::swap(&mut requested, &mut self.requested);
            requested.push(id);
            proof {
                assert(!old_requested.contains(id));
                assert(requested@ == old_requested.push(id));
                assert(requested@.no_duplicates()) by {
                    assert forall|a: int, b: int| 0 <= a < requested@.len() && 0 <= b < requested@.len() && a != b implies requested@[a] != requested@[b] by {
                        if a < old_requested.len() && b < old_requested.len() {
                            assert(requested@[a] == old_requested[a] && requested@[b] == old_requested[b]);
                        } else if a == old_requested.len() {
                            assert(requested@[b] == old_requested[b]);
                            assert(old_requested[b] != id);
                        } else {
                            assert(requested@[a] == old_requested[a]);
                            assert(old_requested[a] != id);
                        }
                    }
                }
                old_requested.lemma_push_to_set_commute(id);
            }
            self.requested = requested;
        } else {
            assert(old_requested.to_set() =~= old_requested.to_set().insert(id));
        }
    }

    /// Drops every loaded chunk farther than `max_distance` chunks from
    /// `center` along either axis; pending requests stay.
    pub fn unload_distant(&mut self, center: ChunkId, max_distance: i32)
        requires
            forall|id: ChunkId|
                old(self).loaded().dom().contains(id) ==> distance_fits(id.x, center.x)
                    && distance_fits(id.y, center.y),
        ensures
            final(self).loaded() == old(self).loaded().restrict(near_set(center, max_distance)),
            final(self).pending() == old(self).pending(),
    {
        proof {
            use_type_invariant(&*self);
        }
        let mut old_vec: Vec<ChunkData> = Vec::new();
        std::mem::swap(&mut old_vec, &mut self.chunks);
        let ghost old_s = old_vec@;
        proof {
            assert(old_s == old(self).chunks@);
            assert forall|k: int| 0 <= k < old_s.len() implies distance_fits(#[trigger] old_s[k].id.x, center.x)
                && distance_fits(old_s[k].id.y, center.y) by {
                chunk_map_at(old_s, k);
                assert(old(self).loaded().dom().contains(old_s[k].id));
            }
        }
        let mut kept: Vec<ChunkData> = Vec::new();
        let ghost mut pos: Seq<int> = Seq::empty();
        let mut i: usize = 0;
        while i < old_vec.len()
            invariant
                old_vec@ == old_s,
                unique_ids(old_s),
                forall|k: int| 0 <= k < old_s.len() ==> distance_fits(#[trigger] old_s[k].id.x, center.x)
                    && distance_fits(old_s[k].id.y, center.y),
                0 <= i <= old_s.len(),
                kept.len() == pos.len(),
                forall|j: int|
                    0 <= j < pos.len() ==> 0 <= #[trigger] pos[j] < i && kept@[j].id == old_s[pos[j]].id
                        && entry_of(kept@[j]) == entry_of(old_s[pos[j]])
                        && within_distance(old_s[pos[j]].id, center, max_distance),
                forall|j1: int, j2: int| 0 <= j1 < j2 < pos.len() ==> pos[j1] < pos[j2],
                forall|k: int|
                    0 <= k < i && within_distance(#[trigger] old_s[k].id, center, max_distance)
                        ==> exists|j: int| 0 <= j < pos.len() && pos[j] == k,
            decreases old_s.len() - i,
        {
            let id = old_vec[i].id;
            let dx = id.x - center.x;
            let dy = id.y - center.y;
            let adx = if dx < 0 { -dx } else { dx };
            let ady = if dy < 0 { -dy } else { dy };
            let ghost prev_pos = pos;
            if adx <= max_distance && ady <= max_distance {
                let c = old_vec[i].clone_data();
                kept.push(c);
                proof {
                    pos = pos.push(i as int);
                    assert(pos[pos.len() - 1] == i);
                }
            }
            proof {
                assert forall|k: int|
                    0 <= k < i + 1 && within_distance(#[trigger] old_s[k].id, center, max_distance)
                        implies exists|j: int| 0 <= j < pos.len() && pos[j] == k by {
                    if k < i {
                        let j = choose|j: int| 0 <= j < prev_pos.len() && prev_pos[j] == k;
                        assert(pos[j] == k);
                    } else {
                        assert(pos[pos.len() - 1] == k);
                    }
                }
            }
            i = i + 1;
        }
        proof {
            let t = kept@;
            assert(unique_ids(t)) by {
                assert forall|a: int, b: int| 0 <= a < t.len() && 0 <= b < t.len() && a != b implies t[a].id != t[b].id by {
                    assert(pos[a] != pos[b]);
                    assert(t[a].id == old_s[pos[a]].id && t[b].id == old_s[pos[b]].id);
                }
            }
            let target = chunk_map(old_s).restrict(near_set(center, max_distance));
            assert forall|k: ChunkId| #![auto] chunk_map(t).dom().contains(k) <==> target.dom().contains(k) by {
                if holds_id(t, k) {
                    let j = choose|j: int| 0 <= j < t.len() && t[j].id == k;
                    assert(old_s[pos[j]].id == k);
                    assert(holds_id(old_s, k));
                }
                if target.dom().contains(k) {
                    let m = choose|m: int| 0 <= m < old_s.len() && old_s[m].id == k;
                    assert(within_distance(old_s[m].id, center, max_distance));
                    let j = choose|j: int| 0 <= j < pos.len() && pos[j] == m;
                    assert(t[j].id == k);
                }
            }
            assert forall|k: ChunkId| #[trigger] chunk_map(t).dom().contains(k) implies chunk_map(t)[k] == target[k] by {
                let j = choose|j: int| 0 <= j < t.len() && t[j].id == k;
                chunk_map_at(t, j);
                chunk_map_at(old_s, pos[j]);
            }
            assert(chunk_map(t) =~= target);
        }
        self.chunks = kept;
    }

    /// Every loaded chunk, once each, in no particular order.
    pub fn chunks(&self) -> (res: &[ChunkData])
        ensures
            res@.len() == self.loaded().dom().len(),
            unique_ids(res@),
            forall|i: int| 0 <= i < res@.len() ==> self.loaded().dom().contains(#[trigger] res@[i].id)
                && self.loaded()[res@[i].id] == entry_of(res@[i]),
            forall|id: ChunkId| self.loaded().dom().contains(id) ==> holds_id(res@, id),
    {
        proof {
            use_type_invariant(self);
            chunk_map_len(self.chunks@);
            assert forall|i: int| 0 <= i < self.chunks@.len() implies self.loaded().dom().contains(
                #[trigger] self.chunks@[i].id,
            ) && self.loaded()[self.chunks@[i].id] == entry_of(self.chunks@[i]) by {
                chunk_map_at(self.chunks@, i);
            }
        }
        self.chunks.as_slice()
    }

    /// Number of loaded chunks.
    pub fn chunk_count(&self) -> (res: usize)
        ensures
            res == self.loaded().dom().len(),
    {
        proof {
            use_type_invariant(self);
            chunk_map_len(self.chunks@);
        }
        self.chunks.len()
    }
}

impl Default for WorldCache {
    fn default() -> (res: Self)
        ensures
            res.loaded() == Map::<ChunkId, (Seq<TileData>, u32)>::empty(),
            res.pending() == Set::<ChunkId>::empty(),
    {
        WorldCache::new()
    }
}

/// Storing a chunk makes it loaded with exactly the stored tiles and time,
/// and no longer pending.
pub proof fn stored_chunk_is_loaded(
    loaded: Map<ChunkId, (Seq<TileData>, u32)>,
    pending: Set<ChunkId>,
    id: ChunkId,
    entry: (Seq<TileData>, u32),
)
    ensures
        loaded.insert(id, entry).dom().contains(id),
        loaded.insert(id, entry)[id] == entry,
        !pending.remove(id).contains(id),
{
}

/// Storing a chunk that was not loaded adds one to the count of loaded
/// chunks; storing one that was loaded leaves the count unchanged.
pub proof fn store_count(loaded: Map<ChunkId, (Seq<TileData>, u32)>, id: ChunkId, entry: (Seq<TileData>, u32))
    requires
        loaded.dom().finite(),
    ensures
        loaded.insert(id, entry).dom().len() == if loaded.dom().contains(id) {
            loaded.dom().len()
        } else {
            loaded.dom().len() + 1
        },
{
    assert(loaded.insert(id, entry).dom() =~= loaded.dom().insert(id));
}

/// Unloading twice around the same centre removes nothing more the second time.
pub proof fn unload_is_idempotent(loaded: Map<ChunkId, (Seq<TileData>, u32)>, center: ChunkId, max_distance: i32)
    ensures
        loaded.restrict(near_set(center, max_distance)).restrict(near_set(center, max_distance))
            == loaded.restrict(near_set(center, max_distance)),
{
    assert(loaded.restrict(near_set(center, max_distance)).restrict(near_set(center, max_distance))
        =~= loaded.restrict(near_set(center, max_distance)));
}

/// The centre's own chunk survives unloading whenever the distance is not negative.
pub proof fn center_survives_unload(loaded: Map<ChunkId, (Seq<TileData>, u32)>, center: ChunkId, max_distance: i32)
    requires
        max_distance >= 0,
        loaded.dom().contains(center),
    ensures
        loaded.restrict(near_set(center, max_distance)).dom().contains(center),
        loaded.restrict(near_set(center, max_distance))[center] == loaded[center],
{
}

/// Unloading keeps exactly the loaded chunks that lie no more than
/// `max_distance` chunks from the centre along both axes.
pub proof fn unload_keeps_exactly_near_chunks(
    loaded: Map<ChunkId, (Seq<TileData>, u32)>,
    center: ChunkId,
    max_distance: i32,
    id: ChunkId,
)
    ensures
        loaded.restrict(near_set(center, max_distance)).dom().contains(id) <==> (loaded.dom().contains(id)
            && abs_int(id.x - center.x) <= max_distance && abs_int(id.y - center.y) <= max_distance),
{
}

} // verus!
