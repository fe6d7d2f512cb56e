//! Who receives which entities: replication, prediction and interpolation
//! targets of players and cursors, the colour hue of a peer, and the layout
//! of the visibility grid and of the arena walls.

use vstd::prelude::*;

verus! {

/// A set of peers described the way the replication layer takes it; peers
/// are given by their numeric ids.
#[derive(Clone, Copy, Debug, PartialEq, Eq, Structural)]
pub enum NetworkTarget {
    Nobody,
    All,
    Single(u64),
    AllExceptSingle(u64),
}

impl NetworkTarget {
    /// Whether `peer` belongs to the target.
    pub open spec fn includes(self, peer: u64) -> bool {
        match self {
            NetworkTarget::Nobody => false,
            NetworkTarget::All => true,
            NetworkTarget::Single(p) => p == peer,
            NetworkTarget::AllExceptSingle(p) => p != peer,
        }
    }

    /// Whether `peer` belongs to the target.
    pub fn targets(&self, peer: u64) -> (r: bool)
        ensures
            r == self.includes(peer),
    {
        match self {
            NetworkTarget::Nobody => false,
            NetworkTarget::All => true,
            NetworkTarget::Single(p) => *p == peer,
            NetworkTarget::AllExceptSingle(p) => *p != peer,
        }
    }
}

/// Where a replicated entity goes: who receives it, who predicts it and who
/// interpolates it.
#[derive(Clone, Copy, Debug, PartialEq, Eq, Structural)]
pub struct ReplicationTargets {
    pub replicate: NetworkTarget,
    pub prediction: NetworkTarget,
    pub interpolation: NetworkTarget,
}

/// The player of client `owner` in the visibility example: replicated to
/// everyone, predicted by its owner, interpolated by everyone else.
pub fn owned_player_targets(owner: u64) -> (t: ReplicationTargets)
    ensures
        t == (ReplicationTargets {
            replicate: NetworkTarget::All,
            prediction: NetworkTarget::Single(owner),
            interpolation: NetworkTarget::AllExceptSingle(owner),
        }),
{
    ReplicationTargets {
        replicate: NetworkTarget::All,
        prediction: NetworkTarget::Single(owner),
        interpolation: NetworkTarget::AllExceptSingle(owner),
    }
}

/// A player of the physics examples: replicated to and predicted by
/// everyone, interpolated by nobody.
pub fn shared_player_targets() -> (t: ReplicationTargets)
    ensures
        t == (ReplicationTargets {
            replicate: NetworkTarget::All,
            prediction: NetworkTarget::All,
            interpolation: NetworkTarget::Nobody,
        }),
{
    ReplicationTargets {
        replicate: NetworkTarget::All,
        prediction: NetworkTarget::All,
        interpolation: NetworkTarget::Nobody,
    }
}

/// A cursor received from client `owner`: relayed to every other client,
/// which interpolates it; never sent back to its owner.
pub fn relayed_cursor_targets(owner: u64) -> (t: ReplicationTargets)
    ensures
        t == (ReplicationTargets {
            replicate: NetworkTarget::AllExceptSingle(owner),
            prediction: NetworkTarget::Nobody,
            interpolation: NetworkTarget::AllExceptSingle(owner),
        }),
{
    ReplicationTargets {
        replicate: NetworkTarget::AllExceptSingle(owner),
        prediction: NetworkTarget::Nobody,
        interpolation: NetworkTarget::AllExceptSingle(owner),
    }
}

/// Every peer receives an owned player, and handles it in exactly one way:
/// the owner predicts it, every other peer interpolates it.
pub proof fn law_owned_player_handled_once(owner: u64, peer: u64)
    ensures
        ({
            let t = ReplicationTargets {
                replicate: NetworkTarget::All,
                prediction: NetworkTarget::Single(owner),
                interpolation: NetworkTarget::AllExceptSingle(owner),
            };
            &&& t.replicate.includes(peer)
            &&& t.prediction.includes(peer) != t.interpolation.includes(peer)
            &&& t.prediction.includes(peer) <==> peer == owner
        }),
{
}

/// A relayed cursor reaches every client but its owner.
pub proof fn law_cursor_not_echoed(owner: u64, peer: u64)
    ensures
        NetworkTarget::AllExceptSingle(owner).includes(peer) <==> peer != owner,
{
}

/// The hue, in degrees, of the colour of the peer with numeric id `bits`:
/// thirty degrees per id, wrapping at 64 bits, then taken modulo 360.
pub open spec fn spec_hue_degrees(bits: u64) -> u64 {
    ((bits * 30) % 0x1_0000_0000_0000_0000) as u64 % 360
}

pub fn hue_degrees(bits: u64) -> (h: u64)
    ensures
        h == spec_hue_degrees(bits),
        h < 360,
{
    bits.wrapping_mul(30) % 360
}

/// The cells of the square grid of half-width `n` around the origin, column
/// by column: cell `k` is `(k / (2n+1) - n, k % (2n+1) - n)`.
pub open spec fn spec_grid_cell(n: int, k: int) -> (int, int) {
    (k / (2 * n + 1) - n, k % (2 * n + 1) - n)
}

/// Number of cells of the grid of half-width `n`.
pub open spec fn spec_grid_count(n: int) -> int {
    (2 * n + 1) * (2 * n + 1)
}

proof fn lemma_side_fits(n: int)
    ensures
        -spec_grid_count(n) <= 2 * n + 1 <= spec_grid_count(n),
{
    let a = 2 * n + 1;
    assert(a != 0);
    assert(-(a * a) <= a <= a * a) by (nonlinear_arith)
        requires
            a != 0,
    ;
}

/// The number of cells of the grid of half-width `n`, computed as
/// `(2n+1)^2` in `i32`.
pub fn grid_count(n: i32) -> (c: i32)
    requires
        spec_grid_count(n as int) <= i32::MAX,
    ensures
        c == spec_grid_count(n as int),
{
    proof {
        lemma_side_fits(n as int);
    }
    (n * 2 + 1) * (n * 2 + 1)
}

/// The positions of the circles of the grid of half-width `n`: every
/// `(x, y)` with `-n <= x, y <= n`, `x` in the outer loop; none when `n` is
/// negative.
pub fn grid_cells(n: i32) -> (cells: Vec<(i32, i32)>)
    requires
        spec_grid_count(n as int) <= i32::MAX,
    ensures
        cells@.len() == if n < 0 {
            0
        } else {
            spec_grid_count(n as int)
        },
        forall|k: int|
            0 <= k < cells@.len() ==> (#[trigger] cells@[k].0 as int, cells@[k].1 as int)
                == spec_grid_cell(n as int, k),
{
    let mut cells: Vec<(i32, i32)> = Vec::new();
    if n < 0 {
        return cells;
    }
    proof {
        lemma_side_fits(n as int);
    }
    let side: i32 = 2 * n + 1;
    let mut x: i32 = -n;
    assert((x + n) * side == 0) by (nonlinear_arith)
        requires
            x + n == 0,
    ;
    while x <= n
        invariant
            0 <= n,
            side == 2 * n + 1,
            spec_grid_count(n as int) == side * side,
            spec_grid_count(n as int) <= i32::MAX,
            -n <= x <= n + 1,
            cells@.len() == (x + n) * side,
            forall|k: int|
                0 <= k < cells@.len() ==> (#[trigger] cells@[k].0 as int, cells@[k].1 as int)
                    == spec_grid_cell(n as int, k),
        decreases n + 1 - x,
    {
        let mut y: i32 = -n;
        let ghost col = x + n;
        assert((col + 1) * side <= side * side) by (nonlinear_arith)
            requires
                0 <= col < side,
        ;
        while y <= n
            invariant
                0 <= n,
                side == 2 * n + 1,
                spec_grid_count(n as int) == side * side,
                spec_grid_count(n as int) <= i32::MAX,
                -n <= x <= n,
                col == x + n,
                (col + 1) * side <= side * side,
                -n <= y <= n + 1,
                cells@.len() == col * side + (y + n),
                forall|k: int|
                    0 <= k < cells@.len() ==> (#[trigger] cells@[k].0 as int, cells@[k].1 as int)
                        == spec_grid_cell(n as int, k),
            decreases n + 1 - y,
        {
            let ghost k = cells@.len() as int;
            assert(k / (side as int) == col && k % (side as int) == y + n) by (nonlinear_arith)
                requires
                    k == col * side + (y + n),
                    0 <= y + n < side,
                    0 <= col,
            ;
            cells.push((x, y));
            y = y + 1;
        }
        assert(col * side + side == (col + 1) * side) by (nonlinear_arith);
        x = x + 1;
    }
    cells
}

/// Every cell of the square around the origin appears in the grid, at the
/// position given by its column and row.
pub proof fn law_grid_covers_square(n: int, x: int, y: int)
    requires
        0 <= n,
        -n <= x <= n,
        -n <= y <= n,
    ensures
        ({
            let k = (x + n) * (2 * n + 1) + (y + n);
            &&& 0 <= k < spec_grid_count(n)
            &&& spec_grid_cell(n, k) == (x, y)
        }),
{
    let side = 2 * n + 1;
    let k = (x + n) * side + (y + n);
    assert(0 <= k < side * side) by (nonlinear_arith)
        requires
            k == (x + n) * side + (y + n),
            0 <= x + n < side,
            0 <= y + n < side,
    ;
    assert(k / side == x + n && k % side == y + n) by (nonlinear_arith)
        requires
            k == (x + n) * side + (y + n),
            0 <= x + n,
            0 <= y + n < side,
    ;
}

/// An arena wall, from one corner to the next.
#[derive(Clone, Copy, Debug)]
pub struct WallSegment {
    pub start: (i32, i32),
    pub end: (i32, i32),
}

/// The four walls of the square arena of half-size `s`, going round it:
/// left, top, right, bottom.
pub open spec fn spec_arena_walls(s: int) -> Seq<((int, int), (int, int))> {
    seq![((-s, -s), (-s, s)), ((-s, s), (s, s)), ((s, s), (s, -s)), ((s, -s), (-s, -s))]
}

pub fn arena_walls(half_size: i32) -> (walls: Vec<WallSegment>)
    requires
        half_size > i32::MIN,
    ensures
        walls@.len() == 4,
        forall|i: int|
            0 <= i < 4 ==> ((#[trigger] walls@[i].start.0 as int, walls@[i].start.1 as int), (
            walls@[i].end.0 as int,
            walls@[i].end.1 as int,
        )) == spec_arena_walls(half_size as int)[i],
{
    let s = half_size;
    let m = -half_size;
    let mut walls: Vec<WallSegment> = Vec::new();
    walls.push(WallSegment { start: (m, m), end: (m, s) });
    walls.push(WallSegment { start: (m, s), end: (s, s) });
    walls.push(WallSegment { start: (s, s), end: (s, m) });
    walls.push(WallSegment { start: (s, m), end: (m, m) });
    walls
}

/// The walls close the arena: each wall ends where the next begins, and
/// every wall runs along one axis.
pub proof fn law_arena_closed(s: int, i: int)
    requires
        0 <= i < 4,
    ensures
        spec_arena_walls(s)[i].1 == spec_arena_walls(s)[(i + 1) % 4].0,
        spec_arena_walls(s)[i].0.0 == spec_arena_walls(s)[i].1.0 || spec_arena_walls(s)[i].0.1
            == spec_arena_walls(s)[i].1.1,
{
}

} // verus!
