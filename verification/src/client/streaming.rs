//! Which chunks to ask the server for around the camera, and what the
//! server's messages do to the cache.

use vstd::prelude::*;

use super::world_cache::WorldCache;
use crate::shared::protocol::ServerMessage;
use crate::shared::types::{ChunkId, TileData};

verus! {

/// Side of the square of chunks within `r` of a centre.
pub open spec fn square_side(r: int) -> int {
    2 * r + 1
}

/// The `k`-th chunk of the square of radius `r` around `center`: column
/// offsets `dx` from `-r` to `r`, and within each the row offsets `dy` from
/// `-r` to `r`.
pub open spec fn square_chunk(center: ChunkId, r: int, k: int) -> ChunkId {
    ChunkId {
        x: (center.x + k / square_side(r) - r) as i32,
        y: (center.y + k % square_side(r) - r) as i32,
    }
}

/// The chunks of the square of radius `r` around `center`, in the order
/// above; empty when `r` is negative.
pub open spec fn square_seq(center: ChunkId, r: int) -> Seq<ChunkId> {
    if r < 0 {
        Seq::empty()
    } else {
        Seq::new((square_side(r) * square_side(r)) as nat, |k: int| square_chunk(center, r, k))
    }
}

/// The square of radius `r` around `center` lies within `i32` coordinates,
/// and `r` can be negated.
pub open spec fn square_fits(center: ChunkId, r: i32) -> bool {
    &&& r > i32::MIN
    &&& r >= 0 ==> {
        &&& i32::MIN <= center.x - r
        &&& center.x + r <= i32::MAX
        &&& i32::MIN <= center.y - r
        &&& center.y + r <= i32::MAX
    }
}

/// Chunk `id` is neither loaded nor requested.
pub open spec fn is_fresh(loaded: Map<ChunkId, (Seq<TileData>, u32)>, pending: Set<ChunkId>, id: ChunkId) -> bool {
    !loaded.dom().contains(id) && !pending.contains(id)
}

/// The chunks of the square around `center` to request, given what is loaded
/// and pending: those neither loaded nor pending, in square order.
pub open spec fn chunks_to_ask(
    loaded: Map<ChunkId, (Seq<TileData>, u32)>,
    pending: Set<ChunkId>,
    center: ChunkId,
    r: int,
) -> Seq<ChunkId> {
    square_seq(center, r).filter(|id: ChunkId| is_fresh(loaded, pending, id))
}

/// Two positions of the square give the same chunk only if they are equal.
proof fn square_chunk_injective(center: ChunkId, r: i32, k1: int, k2: int)
    requires
        r >= 0,
        square_fits(center, r),
        0 <= k1 < square_side(r as int) * square_side(r as int),
        0 <= k2 < square_side(r as int) * square_side(r as int),
        square_chunk(center, r as int, k1) == square_chunk(center, r as int, k2),
    ensures
        k1 == k2,
{
    let s = square_side(r as int);
    assert(0 <= k1 / s < s && 0 <= k2 / s < s) by (nonlinear_arith)
        requires
            s > 0,
            0 <= k1 < s * s,
            0 <= k2 < s * s,
    {
        vstd::arithmetic::div_mod::lemma_fundamental_div_mod(k1, s);
        vstd::arithmetic::div_mod::lemma_fundamental_div_mod(k2, s);
    }
    vstd::arithmetic::div_mod::lemma_fundamental_div_mod(k1, s);
    vstd::arithmetic::div_mod::lemma_fundamental_div_mod(k2, s);
    assert(k1 % s == k2 % s);
    assert(k1 / s == k2 / s);
}

/// The chunks of the square of radius `r` around `center`, in square order.
pub fn square_chunks(center: ChunkId, r: i32) -> (res: Vec<ChunkId>)
    requires
        square_fits(center, r),
    ensures
        res@ == square_seq(center, r as int),
{
    let mut chunks: Vec<ChunkId> = Vec::new();
    if r < 0 {
        assert(chunks@ =~= square_seq(center, r as int));
        return chunks;
    }
    let rr: i64 = r as i64;
    let side: i64 = 2 * rr + 1;
    assert(0 < side * side <= 0x1_0000_0000_0000_0000_0000) by (nonlinear_arith)
        requires
            0 < side <= 0x1_0000_0001,
    ;
    let total: u128 = (side as u128) * (side as u128);
    let mut k: u128 = 0;
    while k < total
        invariant
            rr == r,
            rr >= 0,
            square_fits(center, r),
            side == square_side(rr as int),
            total == side * side,
            0 <= k <= total,
            chunks.len() == k,
            forall|j: int| 0 <= j < k ==> #[trigger] chunks@[j] == square_chunk(center, rr as int, j),
        decreases total - k,
    {
        proof {
            vstd::arithmetic::div_mod::lemma_fundamental_div_mod(k as int, side as int);
            assert(0 <= k / (side as u128) < side) by (nonlinear_arith)
                requires
                    side > 0,
                    0 <= k < side * side,
            {
                vstd::arithmetic::div_mod::lemma_fundamental_div_mod(k as int, side as int);
            }
        }
        let dx: i64 = (k / (side as u128)) as i64 - rr;
        let dy: i64 = (k % (side as u128)) as i64 - rr;
        chunks.push(ChunkId { x: (center.x as i64 + dx) as i32, y: (center.y as i64 + dy) as i32 });
        k = k + 1;
    }
    assert(chunks@ =~= square_seq(center, r as int));
    chunks
}

/// Picks the chunks of the square of radius `view_radius` around `center`
/// that are neither loaded nor already requested, marks each as requested,
/// and returns them in square order.
pub fn request_chunks_around(cache: &mut WorldCache, center: ChunkId, view_radius: i32) -> (res: Vec<ChunkId>)
    requires
        square_fits(center, view_radius),
    ensures
        res@ == chunks_to_ask(old(cache).loaded(), old(cache).pending(), center, view_radius as int),
        final(cache).loaded() == old(cache).loaded(),
        final(cache).pending() == old(cache).pending() + res@.to_set(),
{
    let ghost l0 = cache.loaded();
    let ghost p0 = cache.pending();
    let ghost pred = |id: ChunkId| is_fresh(l0, p0, id);
    let square = square_chunks(center, view_radius);
    let ghost sq = square@;
    let mut to_request: Vec<ChunkId> = Vec::new();
    let mut k: usize = 0;
    proof {
        assert(sq.take(0) =~= Seq::<ChunkId>::empty());
        reveal(Seq::filter);
        assert(p0 + to_request@.to_set() =~= p0);
    }
    while k < square.len()
        invariant
            square_fits(center, view_radius),
            sq == square@,
            sq == square_seq(center, view_radius as int),
            0 <= k <= sq.len(),
            pred == (|id: ChunkId| is_fresh(l0, p0, id)),
            to_request@ == sq.take(k as int).filter(pred),
            cache.loaded() == l0,
            cache.pending() == p0 + to_request@.to_set(),
        decreases sq.len() - k,
    {
        let chunk_id = square[k];
        let ghost prev = to_request@;
        if !cache.is_loaded(&chunk_id) && !cache.is_requested(&chunk_id) {
            cache.mark_requested(chunk_id);
            to_request.push(chunk_id);
        }
        proof {
            // `chunk_id` was not among the chunks picked so far, so the cache's
            // answers are those of the cache before the first pick.
            if prev.contains(chunk_id) {
                sq.take(k as int).lemma_filter_contains_rev(pred, chunk_id);
                let j = choose|j: int| 0 <= j < k && sq.take(k as int)[j] == chunk_id;
                square_chunk_injective(center, view_radius, j, k as int);
            }
            assert(!prev.to_set().contains(chunk_id));
            assert(sq.take(k as int + 1).drop_last() =~= sq.take(k as int));
            reveal(Seq::filter);
            assert(sq.take(k as int + 1).filter(pred) == if pred(chunk_id) {
                sq.take(k as int).filter(pred).push(chunk_id)
            } else {
                sq.take(k as int).filter(pred)
            });
            prev.lemma_push_to_set_commute(chunk_id);
            assert(cache.pending() =~= p0 + to_request@.to_set());
        }
        k = k + 1;
    }
    assert(sq.take(sq.len() as int) =~= sq);
    to_request
}

/// What a server message changed on the client.
#[derive(Debug, Clone, Copy, PartialEq, Eq, Hash, Structural)]
pub enum ServerEvent {
    /// The login succeeded under this player id.
    LoggedIn(u64),
    /// The tiles of this chunk were stored.
    ChunkStored(ChunkId),
    /// The message needs no handling here.
    Unhandled,
}

/// Applies one server message: a login success is reported, the tiles of
/// chunk data are stored in the cache at `time` (the cache keeps tiles only),
/// and anything else is left unhandled.
pub fn process_server_message(cache: &mut WorldCache, msg: ServerMessage, time: u32) -> (res: ServerEvent)
    ensures
        msg matches ServerMessage::LoginSuccess { player_id } ==> res == ServerEvent::LoggedIn(player_id)
            && final(cache).loaded() == old(cache).loaded() && final(cache).pending() == old(cache).pending(),
        msg matches ServerMessage::ChunkData { chunk_id, tiles, .. } ==> res == ServerEvent::ChunkStored(chunk_id)
            && final(cache).loaded() == old(cache).loaded().insert(chunk_id, (tiles@, time))
            && final(cache).pending() == old(cache).pending().remove(chunk_id),
        !(msg is LoginSuccess || msg is ChunkData) ==> res == ServerEvent::Unhandled
            && final(cache).loaded() == old(cache).loaded() && final(cache).pending() == old(cache).pending(),
{
    match msg {
        ServerMessage::LoginSuccess { player_id } => ServerEvent::LoggedIn(player_id),
        ServerMessage::ChunkData { chunk_id, tiles, .. } => {
            cache.insert_chunk(chunk_id, tiles, time);
            ServerEvent::ChunkStored(chunk_id)
        },
        _ => ServerEvent::Unhandled,
    }
}

/// Asking again right away yields nothing: once the chunks to ask for are
/// marked as requested, every chunk of the square is loaded or pending.
pub proof fn second_request_is_empty(
    loaded: Map<ChunkId, (Seq<TileData>, u32)>,
    pending: Set<ChunkId>,
    center: ChunkId,
    r: int,
)
    ensures
        chunks_to_ask(
            loaded,
            pending + chunks_to_ask(loaded, pending, center, r).to_set(),
            center,
            r,
        ).len() == 0,
{
    let sq = square_seq(center, r);
    let asked = chunks_to_ask(loaded, pending, center, r);
    let p1 = pending + asked.to_set();
    let pred0 = |id: ChunkId| is_fresh(loaded, pending, id);
    let pred1 = |id: ChunkId| is_fresh(loaded, p1, id);
    assert forall|i: int| 0 <= i < sq.len() implies !pred1(sq[i]) by {
        if pred0(sq[i]) {
            sq.lemma_filter_contains(pred0, i);
            assert(asked.contains(sq[i]));
            assert(asked.to_set().contains(sq[i]));
        }
    }
    sq.lemma_all_neg_filter_empty(pred1);
}

} // verus!
