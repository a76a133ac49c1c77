//! Corner selection on the skewed simplex lattices: which lattice points
//! surround a point, in which order they are visited, and the gradient
//! direction that each of them hashes to.
use crate::gradients::{grad2, grad2_spec, grad4, grad4_spec};
use crate::permutation::{hash2_spec, hash4_spec, PermutationTable};
use vstd::arithmetic::div_mod::lemma_mod_multiples_vanish;
use vstd::prelude::*;

verus! {

/// Offset of the middle corner of a 2D simplex from its base corner:
/// `(1, 0)` when the point lies below the cell's diagonal (its x offset
/// exceeds its y offset), else `(0, 1)`.
pub open spec fn middle_corner2(x_greater: bool) -> (int, int) {
    if x_greater {
        (1, 0)
    } else {
        (0, 1)
    }
}

/// Position, among the six comparisons of the four local offsets, of the
/// comparison of component `a` with component `b` (`a < b`); the order is
/// `(0,1), (0,2), (0,3), (1,2), (1,3), (2,3)`.
pub open spec fn pair_index(a: int, b: int) -> int {
    if a == 0 {
        b - 1
    } else if a == 1 {
        b + 1
    } else {
        5
    }
}

/// Component `c` outranks component `d`, where `gt[pair_index(a, b)]` says
/// that component `a` is strictly greater than component `b`: the lower
/// index wins only when strictly greater, so ties go to the higher index.
pub open spec fn outranks(gt: Seq<bool>, c: int, d: int) -> bool {
    if c < d {
        gt[pair_index(c, d)]
    } else {
        !gt[pair_index(d, c)]
    }
}

/// `1` when `c` outranks another component `d`, else `0`.
pub open spec fn win(gt: Seq<bool>, c: int, d: int) -> int {
    if c != d && outranks(gt, c, d) {
        1
    } else {
        0
    }
}

/// How many of the other three components `c` outranks.
pub open spec fn rank_spec(gt: Seq<bool>, c: int) -> int {
    win(gt, c, 0) + win(gt, c, 1) + win(gt, c, 2) + win(gt, c, 3)
}

/// Component `c` of the offset of corner `k` (`0 <= k <= 4`) of a 4D simplex:
/// `1` when `c` is among the `k` highest-ranked components, else `0`.
pub open spec fn vertex4_spec(gt: Seq<bool>, k: int, c: int) -> int {
    if rank_spec(gt, c) >= 4 - k {
        1
    } else {
        0
    }
}

/// A corner of the 2D simplex that holds a point.
#[derive(Clone, Copy, Debug, PartialEq, Eq)]
pub struct Corner2 {
    /// Offset of the corner's lattice point from the cell's base point.
    pub offset: (i32, i32),
    /// The gradient direction that the corner's lattice point hashes to.
    pub gradient: (i8, i8),
}

/// A corner of the 4D simplex that holds a point.
#[derive(Clone, Copy, Debug, PartialEq, Eq)]
pub struct Corner4 {
    /// Offset of the corner's lattice point from the cell's base point.
    pub offset: (i32, i32, i32, i32),
    /// The gradient direction that the corner's lattice point hashes to.
    pub gradient: (i8, i8, i8, i8),
}

/// The gradient that 2D lattice point `(x, y)` carries under table `p`.
pub open spec fn lattice_gradient2(p: Seq<u8>, x: int, y: int) -> (int, int) {
    grad2_spec(hash2_spec(p, x, y))
}

/// The gradient that 4D lattice point `(x, y, z, w)` carries under table `p`.
pub open spec fn lattice_gradient4(p: Seq<u8>, x: int, y: int, z: int, w: int) -> (
    int,
    int,
    int,
    int,
) {
    grad4_spec(hash4_spec(p, x, y, z, w))
}

/// `c` is the 2D corner with offset `(dx, dy)` from base point `(x, y)`.
pub open spec fn is_corner2(p: Seq<u8>, x: int, y: int, c: Corner2, dx: int, dy: int) -> bool {
    &&& c.offset.0 == dx
    &&& c.offset.1 == dy
    &&& (c.gradient.0 as int, c.gradient.1 as int) == lattice_gradient2(p, x + dx, y + dy)
}

/// `c` is corner `k` of the 4D simplex chosen by comparisons `gt` in the cell
/// with base point `cell`.
pub open spec fn is_corner4(
    p: Seq<u8>,
    cell: (i32, i32, i32, i32),
    gt: Seq<bool>,
    k: int,
    c: Corner4,
) -> bool {
    let o = (vertex4_spec(gt, k, 0), vertex4_spec(gt, k, 1), vertex4_spec(gt, k, 2), vertex4_spec(gt, k, 3));
    &&& (c.offset.0 as int, c.offset.1 as int, c.offset.2 as int, c.offset.3 as int) == o
    &&& (c.gradient.0 as int, c.gradient.1 as int, c.gradient.2 as int, c.gradient.3 as int)
        == lattice_gradient4(p, cell.0 + o.0, cell.1 + o.1, cell.2 + o.2, cell.3 + o.3)
}

/// The six comparisons of four values, in the order of `pair_index`.
pub open spec fn comparisons_of(v: Seq<int>) -> Seq<bool> {
    seq![v[0] > v[1], v[0] > v[2], v[0] > v[3], v[1] > v[2], v[1] > v[3], v[2] > v[3]]
}

/// When the comparisons come from four actual values, the ranks are the
/// numbers `0..=3` each once, so corner `k` of the 4D simplex has exactly `k`
/// unit steps and contains the steps of corner `k - 1`: the five corners walk
/// from the cell's base point to its opposite point one axis at a time.
pub proof fn lemma_simplex4_path(v: Seq<int>)
    requires
        v.len() == 4,
    ensures
        forall|c: int| 0 <= c < 4 ==> 0 <= #[trigger] rank_spec(comparisons_of(v), c) < 4,
        forall|c: int, d: int|
            0 <= c < 4 && 0 <= d < 4 && c != d ==> #[trigger] rank_spec(comparisons_of(v), c)
                != #[trigger] rank_spec(comparisons_of(v), d),
        forall|k: int|
            0 <= k <= 4 ==> #[trigger] vertex4_spec(comparisons_of(v), k, 0) + vertex4_spec(
                comparisons_of(v),
                k,
                1,
            ) + vertex4_spec(comparisons_of(v), k, 2) + vertex4_spec(comparisons_of(v), k, 3) == k,
        forall|k: int, c: int|
            0 <= k < 4 && 0 <= c < 4 ==> #[trigger] vertex4_spec(comparisons_of(v), k, c)
                <= vertex4_spec(comparisons_of(v), k + 1, c),
{
    let gt = comparisons_of(v);
    assert(gt[0] == (v[0] > v[1]) && gt[1] == (v[0] > v[2]) && gt[2] == (v[0] > v[3]));
    assert(gt[3] == (v[1] > v[2]) && gt[4] == (v[1] > v[3]) && gt[5] == (v[2] > v[3]));
    let r0 = rank_spec(gt, 0);
    let r1 = rank_spec(gt, 1);
    let r2 = rank_spec(gt, 2);
    let r3 = rank_spec(gt, 3);
    assert(r0 != r1 && r0 != r2 && r0 != r3 && r1 != r2 && r1 != r3 && r2 != r3);
}

/// Corners are consistent across cells: two corners, of any cells, that
/// stand on the same lattice point carry the same gradient. Each of `a` and
/// `b` is `(x, y, corner, dx, dy)`: a base point, a corner and its offset.
pub proof fn lemma_shared_corners_agree(
    p: Seq<u8>,
    a: (int, int, Corner2, int, int),
    b: (int, int, Corner2, int, int),
)
    requires
        is_corner2(p, a.0, a.1, a.2, a.3, a.4),
        is_corner2(p, b.0, b.1, b.2, b.3, b.4),
        a.0 + a.3 == b.0 + b.3,
        a.1 + a.4 == b.1 + b.4,
    ensures
        a.2.gradient == b.2.gradient,
{
}

/// The same for the corners of 4D simplices; each of `a` and `b` is
/// `(cell, comparisons, k, corner)`.
pub proof fn lemma_shared_corners4_agree(
    p: Seq<u8>,
    a: ((i32, i32, i32, i32), Seq<bool>, int, Corner4),
    b: ((i32, i32, i32, i32), Seq<bool>, int, Corner4),
)
    requires
        is_corner4(p, a.0, a.1, a.2, a.3),
        is_corner4(p, b.0, b.1, b.2, b.3),
        a.0.0 + a.3.offset.0 == b.0.0 + b.3.offset.0,
        a.0.1 + a.3.offset.1 == b.0.1 + b.3.offset.1,
        a.0.2 + a.3.offset.2 == b.0.2 + b.3.offset.2,
        a.0.3 + a.3.offset.3 == b.0.3 + b.3.offset.3,
    ensures
        a.3.gradient == b.3.gradient,
{
}

/// Hashing only looks at a coordinate modulo 256, which wrapping addition keeps.
proof fn lemma_wrapping_add_mod(a: i32, d: i32)
    ensures
        (a.wrapping_add(d) as int) % 256 == (a + d) % 256,
{
    let s = a + d;
    if s > i32::MAX {
        lemma_mod_multiples_vanish(-16777216, s, 256);
    } else if s < i32::MIN {
        lemma_mod_multiples_vanish(16777216, s, 256);
    }
}

proof fn lemma_hash2_wrapping(p: Seq<u8>, x: i32, y: i32, dx: i32, dy: i32)
    ensures
        hash2_spec(p, x.wrapping_add(dx) as int, y.wrapping_add(dy) as int) == hash2_spec(
            p,
            x + dx,
            y + dy,
        ),
{
    lemma_wrapping_add_mod(x, dx);
    lemma_wrapping_add_mod(y, dy);
}

proof fn lemma_hash4_wrapping(
    p: Seq<u8>,
    cell: (i32, i32, i32, i32),
    o: (i32, i32, i32, i32),
)
    ensures
        hash4_spec(
            p,
            cell.0.wrapping_add(o.0) as int,
            cell.1.wrapping_add(o.1) as int,
            cell.2.wrapping_add(o.2) as int,
            cell.3.wrapping_add(o.3) as int,
        ) == hash4_spec(p, cell.0 + o.0, cell.1 + o.1, cell.2 + o.2, cell.3 + o.3),
{
    lemma_wrapping_add_mod(cell.0, o.0);
    lemma_wrapping_add_mod(cell.1, o.1);
    lemma_wrapping_add_mod(cell.2, o.2);
    lemma_wrapping_add_mod(cell.3, o.3);
}

/// The 2D corner at offset `(dx, dy)` from base point `(x, y)`.
fn corner2(table: &PermutationTable, x: i32, y: i32, dx: i32, dy: i32) -> (c: Corner2)
    requires
        table.wf(),
    ensures
        is_corner2(table@, x as int, y as int, c, dx as int, dy as int),
{
    let h = table.hash2(x.wrapping_add(dx), y.wrapping_add(dy));
    proof {
        lemma_hash2_wrapping(table@, x, y, dx, dy);
    }
    Corner2 { offset: (dx, dy), gradient: grad2(h) }
}

/// The three corners of the 2D simplex in the skewed cell with base point
/// `(cell_x, cell_y)`: the base point, the middle corner that `x_greater`
/// chooses, and the opposite point `(1, 1)`, each with its gradient.
pub fn simplex2_corners(table: &PermutationTable, cell_x: i32, cell_y: i32, x_greater: bool) -> (r:
    Vec<Corner2>)
    requires
        table.wf(),
    ensures
        r@.len() == 3,
        is_corner2(table@, cell_x as int, cell_y as int, r@[0], 0, 0),
        is_corner2(
            table@,
            cell_x as int,
            cell_y as int,
            r@[1],
            middle_corner2(x_greater).0,
            middle_corner2(x_greater).1,
        ),
        is_corner2(table@, cell_x as int, cell_y as int, r@[2], 1, 1),
{
    let (i1, j1): (i32, i32) = if x_greater {
        (1, 0)
    } else {
        (0, 1)
    };
    let mut r: Vec<Corner2> = Vec::new();
    r.push(corner2(table, cell_x, cell_y, 0, 0));
    r.push(corner2(table, cell_x, cell_y, i1, j1));
    r.push(corner2(table, cell_x, cell_y, 1, 1));
    r
}

/// Ranks of the four local offsets of a point in a 4D cell, from the six
/// comparisons `gt` (see `pair_index`): component `c` gets the number of
/// other components that it outranks.
pub fn simplex4_ranks(gt: &[bool; 6]) -> (r: [u8; 4])
    ensures
        forall|c: int| 0 <= c < 4 ==> r@[c] as int == rank_spec(gt@, c),
{
    let mut r0: u8 = 0;
    let mut r1: u8 = 0;
    let mut r2: u8 = 0;
    let mut r3: u8 = 0;
    if gt[0] {
        r0 = r0 + 1;
    } else {
        r1 = r1 + 1;
    }
    if gt[1] {
        r0 = r0 + 1;
    } else {
        r2 = r2 + 1;
    }
    if gt[2] {
        r0 = r0 + 1;
    } else {
        r3 = r3 + 1;
    }
    if gt[3] {
        r1 = r1 + 1;
    } else {
        r2 = r2 + 1;
    }
    if gt[4] {
        r1 = r1 + 1;
    } else {
        r3 = r3 + 1;
    }
    if gt[5] {
        r2 = r2 + 1;
    } else {
        r3 = r3 + 1;
    }
    let r = [r0, r1, r2, r3];
    assert(r@[0] == r0 && r@[1] == r1 && r@[2] == r2 && r@[3] == r3);
    r
}

/// Offset of corner `k` of a 4D simplex from the cell's base point, given the
/// ranks of the four components.
fn vertex4(ranks: &[u8; 4], k: u8) -> (o: (i32, i32, i32, i32))
    requires
        k <= 4,
    ensures
        o.0 == (if ranks@[0] >= 4 - k { 1int } else { 0int }),
        o.1 == (if ranks@[1] >= 4 - k { 1int } else { 0int }),
        o.2 == (if ranks@[2] >= 4 - k { 1int } else { 0int }),
        o.3 == (if ranks@[3] >= 4 - k { 1int } else { 0int }),
{
    let t: u8 = 4 - k;
    (
        if ranks[0] >= t {
            1
        } else {
            0
        },
        if ranks[1] >= t {
            1
        } else {
            0
        },
        if ranks[2] >= t {
            1
        } else {
            0
        },
        if ranks[3] >= t {
            1
        } else {
            0
        },
    )
}

/// Corner `k` of the 4D simplex with the given ranks, in the cell with base point `cell`.
fn corner4(table: &PermutationTable, cell: (i32, i32, i32, i32), ranks: &[u8; 4], k: u8) -> (c:
    Corner4)
    requires
        table.wf(),
        k <= 4,
    ensures
        c.offset.0 == (if ranks@[0] >= 4 - k { 1int } else { 0int }),
        c.offset.1 == (if ranks@[1] >= 4 - k { 1int } else { 0int }),
        c.offset.2 == (if ranks@[2] >= 4 - k { 1int } else { 0int }),
        c.offset.3 == (if ranks@[3] >= 4 - k { 1int } else { 0int }),
        (c.gradient.0 as int, c.gradient.1 as int, c.gradient.2 as int, c.gradient.3 as int)
            == lattice_gradient4(
            table@,
            cell.0 + c.offset.0,
            cell.1 + c.offset.1,
            cell.2 + c.offset.2,
            cell.3 + c.offset.3,
        ),
{
    let o = vertex4(ranks, k);
    let h = table.hash4(
        cell.0.wrapping_add(o.0),
        cell.1.wrapping_add(o.1),
        cell.2.wrapping_add(o.2),
        cell.3.wrapping_add(o.3),
    );
    proof {
        lemma_hash4_wrapping(table@, cell, o);
    }
    Corner4 { offset: o, gradient: grad4(h) }
}

/// The five corners of the 4D simplex that the comparisons `gt` of the local
/// offsets choose in the cell with base point `cell`, in traversal order:
/// corner `k` steps by one along each of the `k` highest-ranked axes.
pub fn simplex4_corners(table: &PermutationTable, cell: (i32, i32, i32, i32), gt: &[bool; 6]) -> (r:
    Vec<Corner4>)
    requires
        table.wf(),
    ensures
        r@.len() == 5,
        forall|k: int| 0 <= k < 5 ==> is_corner4(table@, cell, gt@, k, #[trigger] r@[k]),
{
    let ranks = simplex4_ranks(gt);
    let mut r: Vec<Corner4> = Vec::new();
    let mut k: u8 = 0;
    while k < 5
        invariant
            k <= 5,
            table.wf(),
            r@.len() == k,
            forall|c: int| 0 <= c < 4 ==> ranks@[c] as int == rank_spec(gt@, c),
            forall|m: int| 0 <= m < k ==> is_corner4(table@, cell, gt@, m, #[trigger] r@[m]),
        decreases 5 - k,
    {
        let c = corner4(table, cell, &ranks, k);
        r.push(c);
        k = k + 1;
    }
    r
}

} // verus!
