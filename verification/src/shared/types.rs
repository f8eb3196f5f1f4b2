//! Hexagonal coordinates, chunk identifiers, biomes and tiles.

use vstd::prelude::*;

verus! {

/// Axial coordinate of one hexagon (`q` column, `r` row).
#[derive(Debug, Clone, Copy, PartialEq, Eq, Hash, Structural)]
pub struct HexCoord {
    pub q: i32,
    pub r: i32,
}

/// Offset of the `i`-th neighbour, in the order hexx lists its neighbour
/// directions.
pub open spec fn neighbor_offset(i: int) -> (int, int) {
    if i == 0 {
        (1, 0)
    } else if i == 1 {
        (0, 1)
    } else if i == 2 {
        (-1, 1)
    } else if i == 3 {
        (-1, 0)
    } else if i == 4 {
        (0, -1)
    } else {
        (1, -1)
    }
}

/// The `i`-th neighbour of `c`.
pub open spec fn neighbor_of(c: HexCoord, i: int) -> HexCoord {
    HexCoord { q: (c.q + neighbor_offset(i).0) as i32, r: (c.r + neighbor_offset(i).1) as i32 }
}

/// Both axial components can move one step in every direction without overflow.
pub open spec fn has_room_for_neighbors(c: HexCoord) -> bool {
    &&& i32::MIN < c.q < i32::MAX
    &&& i32::MIN < c.r < i32::MAX
}

/// Absolute value.
pub open spec fn abs_int(x: int) -> int {
    if x < 0 {
        -x
    } else {
        x
    }
}

/// Number of steps between two hexagons on the grid.
pub open spec fn hex_distance(a: HexCoord, b: HexCoord) -> int {
    let dq = a.q - b.q;
    let dr = a.r - b.r;
    (abs_int(dq) + abs_int(dr) + abs_int(dq + dr)) / 2
}

/// hexx's `Hex::all_neighbors` on the hexagon `(q, r)`, each neighbour given
/// back as its `(x, y)` pair. The contract claims that hexx adds its six
/// `NEIGHBORS_COORDS` offsets to the coordinate in their declared order; the
/// addition overflows (and panics in debug builds) at the edges of `i32`,
/// which `requires` leaves out.
#[verifier::external_body]
fn hexx_all_neighbors(q: i32, r: i32) -> (res: [(i32, i32); 6])
    requires
        i32::MIN < q < i32::MAX,
        i32::MIN < r < i32::MAX,
    ensures
        forall|i: int|
            0 <= i < 6 ==> res@[i].0 == q + neighbor_offset(i).0 && res@[i].1 == r
                + neighbor_offset(i).1,
{
    hexx::Hex::new(q, r).all_neighbors().map(|h| (h.x, h.y))
}

impl HexCoord {
    pub fn new(q: i32, r: i32) -> (res: Self)
        ensures
            res.q == q,
            res.r == r,
    {
        HexCoord { q, r }
    }

    /// The six adjacent hexagons, in hexx's direction order.
    pub fn neighbors(&self) -> (res: [HexCoord; 6])
        requires
            has_room_for_neighbors(*self),
        ensures
            forall|i: int| 0 <= i < 6 ==> #[trigger] res@[i] == neighbor_of(*self, i),
    {
        let n = hexx_all_neighbors(self.q, self.r);
        let res = [
            HexCoord::new(n[0].0, n[0].1),
            HexCoord::new(n[1].0, n[1].1),
            HexCoord::new(n[2].0, n[2].1),
            HexCoord::new(n[3].0, n[3].1),
            HexCoord::new(n[4].0, n[4].1),
            HexCoord::new(n[5].0, n[5].1),
        ];
        assert forall|i: int| 0 <= i < 6 implies #[trigger] res@[i] == neighbor_of(*self, i) by {
            assert(n@[i].0 == self.q + neighbor_offset(i).0);
        }
        res
    }
}

/// Every neighbour of a hexagon lies exactly one step away from it.
pub proof fn neighbors_are_adjacent(c: HexCoord, i: int)
    requires
        has_room_for_neighbors(c),
        0 <= i < 6,
    ensures
        hex_distance(c, neighbor_of(c, i)) == 1,
{
}

/// The six neighbours of a hexagon are pairwise different and differ from it.
pub proof fn neighbors_are_distinct(c: HexCoord, i: int, j: int)
    requires
        has_room_for_neighbors(c),
        0 <= i < 6,
        0 <= j < 6,
        i != j,
    ensures
        neighbor_of(c, i) != neighbor_of(c, j),
        neighbor_of(c, i) != c,
{
}

/// Adjacency is symmetric: stepping to the `i`-th neighbour and then in the
/// opposite direction `(i + 3) % 6` leads back to the start.
pub proof fn neighbor_is_symmetric(c: HexCoord, i: int)
    requires
        has_room_for_neighbors(c),
        0 <= i < 6,
    ensures
        neighbor_of(neighbor_of(c, i), (i + 3) % 6) == c,
{
}

/// Identifier of a square chunk of hexagons.
#[derive(Debug, Clone, Copy, PartialEq, Eq, Hash, Structural)]
pub struct ChunkId {
    pub x: i32,
    pub y: i32,
}

/// Index of the chunk of side `size` that holds axial component `v`: the
/// Euclidean quotient of `v` by `size`, the floor of `v / size` when `size > 0`.
pub open spec fn chunk_index(v: int, size: int) -> int {
    v / size
}

/// The value that `size as i32` gives: sizes above `i32::MAX` wrap around to
/// negative values.
pub open spec fn size_as_i32(size: u32) -> int {
    if size <= i32::MAX {
        size as int
    } else {
        size - 0x1_0000_0000
    }
}

/// Dividing `v` by `size as i32` neither divides by zero nor overflows.
pub open spec fn chunk_division_ok(v: i32, size: u32) -> bool {
    size != 0 && !(size == u32::MAX && v == i32::MIN)
}

/// `size as i32`.
pub(crate) fn size_to_i32(size: u32) -> (res: i32)
    ensures
        res == size_as_i32(size),
{
    let res = size as i32;
    assert(size <= 0x7fff_ffff ==> res == size) by (bit_vector)
        requires
            res == size as i32,
    ;
    assert(size > 0x7fff_ffff ==> res == size - 0x1_0000_0000) by (bit_vector)
        requires
            res == size as i32,
    ;
    res
}

/// Euclidean division of an `i32` by a nonzero divisor, as `i32::div_euclid` does it.
pub(crate) fn div_euclid_i32(v: i32, size: i32) -> (res: i32)
    requires
        size != 0,
        !(size == -1 && v == i32::MIN),
    ensures
        res == chunk_index(v as int, size as int),
{
    proof {
        let d = v as int / size as int;
        let r = v as int % size as int;
        vstd::arithmetic::div_mod::lemma_fundamental_div_mod(v as int, size as int);
        if size > 0 {
            assert(i32::MIN <= d <= i32::MAX) by (nonlinear_arith)
                requires
                    d == v as int / size as int,
                    size > 0,
                    i32::MIN <= v <= i32::MAX,
            {
                if v >= 0 {
                    assert(0 <= d <= v);
                } else {
                    assert(v <= d < 0);
                }
            }
        } else if size == -1 {
            assert(d == -v);
        } else {
            let e: int = -size;
            assert(d * e == r - v) by (nonlinear_arith)
                requires
                    v == size * d + r,
                    e == -size,
            ;
            assert(i32::MIN <= d <= i32::MAX) by (nonlinear_arith)
                requires
                    d * e == r - v,
                    2 <= e <= 0x8000_0000,
                    0 <= r < e,
                    i32::MIN <= v <= i32::MAX,
            {
                if d > i32::MAX {
                    assert(d * e >= (i32::MAX + 1) * e);
                }
                if d < i32::MIN {
                    assert(d * e <= i32::MIN * e);
                }
            }
        }
    }
    match v.checked_div_euclid(size) {
        Some(d) => d,
        None => 0,
    }
}

impl ChunkId {
    /// The chunk of side `chunk_size` that holds `coord` (the size taken as
    /// `chunk_size as i32`).
    pub fn from_hex_coord(coord: HexCoord, chunk_size: u32) -> (res: Self)
        requires
            chunk_division_ok(coord.q, chunk_size),
            chunk_division_ok(coord.r, chunk_size),
        ensures
            res.x == chunk_index(coord.q as int, size_as_i32(chunk_size)),
            res.y == chunk_index(coord.r as int, size_as_i32(chunk_size)),
    {
        let chunk_size = size_to_i32(chunk_size);
        ChunkId { x: div_euclid_i32(coord.q, chunk_size), y: div_euclid_i32(coord.r, chunk_size) }
    }
}

/// The chunk index of `v` is the one whose span `[index * size, (index + 1) * size)`
/// contains `v`.
pub proof fn chunk_index_bounds(v: int, size: int)
    requires
        size > 0,
    ensures
        chunk_index(v, size) * size <= v < (chunk_index(v, size) + 1) * size,
{
    assert(chunk_index(v, size) * size <= v < (chunk_index(v, size) + 1) * size) by (nonlinear_arith)
        requires
            size > 0,
    {
        vstd::arithmetic::div_mod::lemma_fundamental_div_mod(v, size);
    }
}

/// Kinds of terrain a tile can have.
#[derive(Debug, Clone, Copy, PartialEq, Eq, Hash, Structural)]
pub enum BiomeType {
    Ocean,
    DeepOcean,
    Coast,
    Beach,
    Lake,
    Grassland,
    Forest,
    DenseForest,
    Mountain,
    HighMountain,
    Desert,
    ColdDesert,
    Savanna,
    Tundra,
    Taiga,
    Swamp,
    Ice,
    TropicalForest,
}

/// Jobs a unit can hold.
#[derive(Debug, Clone, Copy, PartialEq, Eq, Hash, Structural)]
pub enum Profession {
    Farmer,
    Miner,
    Blacksmith,
    Carpenter,
}

/// Kinds of player building that a build action names.
#[derive(Debug, Clone, Copy, PartialEq, Eq, Hash, Structural)]
pub enum BuildingType {
    Farm,
    House,
    Mine,
    Castle,
}

/// Terrain data of one tile as sent over the network.
#[derive(Debug, Clone, Copy, PartialEq, Eq, Hash, Structural)]
pub struct TileData {
    pub coord: HexCoord,
    pub biome: BiomeType,
    pub altitude: i16,
    pub quality: u8,
}

/// The six neighbours in hexx's order: east `(q + 1, r)`, then `(q, r + 1)`,
/// `(q - 1, r + 1)`, `(q - 1, r)`, `(q, r - 1)` and `(q + 1, r - 1)`.
pub proof fn neighbor_directions(c: HexCoord)
    requires
        has_room_for_neighbors(c),
    ensures
        neighbor_of(c, 0) == (HexCoord { q: (c.q + 1) as i32, r: c.r }),
        neighbor_of(c, 1) == (HexCoord { q: c.q, r: (c.r + 1) as i32 }),
        neighbor_of(c, 2) == (HexCoord { q: (c.q - 1) as i32, r: (c.r + 1) as i32 }),
        neighbor_of(c, 3) == (HexCoord { q: (c.q - 1) as i32, r: c.r }),
        neighbor_of(c, 4) == (HexCoord { q: c.q, r: (c.r - 1) as i32 }),
        neighbor_of(c, 5) == (HexCoord { q: (c.q + 1) as i32, r: (c.r - 1) as i32 }),
{
}

} // verus!
