//! Toroidal addressing: which node of a finite gradient grid a lattice
//! coordinate reads, and the unit-square translates that make a point set tile.
use vstd::arithmetic::div_mod::{
    lemma_add_mod_noop_right,
    lemma_mod_self_0,
    lemma_fundamental_div_mod,
    lemma_mod_multiples_vanish,
    lemma_small_mod,
    lemma_sub_mod_noop,
    lemma_mod_bound,
    lemma_mod_add_multiples_vanish,
};
use vstd::prelude::*;

verus! {

/// Node that lattice coordinate `k` reads on an axis of `len` nodes that
/// repeats: `k mod len`.
pub open spec fn node_index(k: int, len: int) -> int {
    k % len
}

/// The grid nodes at the four corners of a Perlin cell, as indices into a
/// grid of `rows` by `cols` nodes.
///
/// A point's x coordinate is scaled by the row count and indexes rows; its
/// y coordinate is scaled by the column count and indexes columns. Each axis
/// wraps modulo its own length, so every node has a vector of its own.
#[derive(Clone, Copy, Debug, PartialEq, Eq)]
pub struct CellNodes {
    /// Row read by the cell's edge at lattice x coordinate `fx`.
    pub x0: usize,
    /// Row read by the cell's edge at lattice x coordinate `fx + 1`.
    pub x1: usize,
    /// Column read by the cell's edge at lattice y coordinate `fy`.
    pub y0: usize,
    /// Column read by the cell's edge at lattice y coordinate `fy + 1`.
    pub y1: usize,
}

/// `k mod period`, for any sign of `k`.
fn wrap_index(k: i32, period: usize) -> (r: usize)
    requires
        period > 0,
    ensures
        r as int == (k as int) % (period as int),
        r < period,
{
    if k >= 0 {
        (k as usize) % period
    } else {
        let neg: usize = (-(k as i64)) as usize;
        let m: usize = neg % period;
        proof {
            let p = period as int;
            let q = neg as int / p;
            assert(neg as int == -(k as int));
            lemma_fundamental_div_mod(neg as int, p);
            assert(k as int == p * (-q) - m as int) by (nonlinear_arith)
                requires
                    neg as int == -(k as int),
                    neg as int == p * q + m as int,
            ;
            if m == 0 {
                lemma_mod_multiples_vanish(-q, 0, p);
                lemma_small_mod(0, p as nat);
            } else {
                assert(k as int == p * (-q - 1) + (p - m as int)) by (nonlinear_arith)
                    requires
                        k as int == p * (-q) - m as int,
                ;
                lemma_mod_multiples_vanish(-q - 1, p - m as int, p);
                lemma_small_mod((p - m as int) as nat, p as nat);
            }
        }
        if m == 0 {
            0
        } else {
            period - m
        }
    }
}

/// The nodes of the cell whose lower-left lattice point is `(fx, fy)` (the
/// floors of the point's grid-space coordinates) in a grid of `rows` by `cols`
/// nodes; the corners past the last node wrap to the first.
pub fn perlin_cell(fx: i32, fy: i32, rows: usize, cols: usize) -> (c: CellNodes)
    requires
        rows > 0,
        cols > 0,
    ensures
        c.x0 == node_index(fx as int, rows as int),
        c.x1 == node_index(fx + 1, rows as int),
        c.y0 == node_index(fy as int, cols as int),
        c.y1 == node_index(fy + 1, cols as int),
        c.x0 < rows && c.x1 < rows && c.y0 < cols && c.y1 < cols,
{
    let x0 = wrap_index(fx, rows);
    let x1: usize = if x0 + 1 == rows {
        0
    } else {
        x0 + 1
    };
    let y0 = wrap_index(fy, cols);
    let y1: usize = if y0 + 1 == cols {
        0
    } else {
        y0 + 1
    };
    proof {
        lemma_add_mod_noop_right(1, fx as int, rows as int);
        lemma_add_mod_noop_right(1, fy as int, cols as int);
        if x0 + 1 == rows {
            lemma_mod_self_0(rows as int);
        } else {
            lemma_small_mod((x0 + 1) as nat, rows as nat);
        }
        if y0 + 1 == cols {
            lemma_mod_self_0(cols as int);
        } else {
            lemma_small_mod((y0 + 1) as nat, cols as nat);
        }
    }
    CellNodes { x0, x1, y0, y1 }
}

/// The lattice tiles, and no two nodes share a vector: two lattice
/// coordinates of an axis read the same node exactly when they differ by a
/// multiple of the axis length, and every node of the axis is read.
pub proof fn lemma_perlin_lattice_tiles(j: int, k: int, len: int)
    requires
        len > 0,
    ensures
        node_index(j + len, len) == node_index(j, len),
        (node_index(j, len) == node_index(k, len)) <==> (j - k) % len == 0,
        0 <= j < len ==> node_index(j, len) == j,
{
    lemma_mod_multiples_vanish(1, j, len);
    lemma_sub_mod_noop(j, k, len);
    lemma_mod_bound(j, len);
    lemma_mod_bound(k, len);
    let a = j % len;
    let b = k % len;
    if a > b {
        lemma_small_mod((a - b) as nat, len as nat);
    } else if a < b {
        lemma_small_mod((a - b + len) as nat, len as nat);
        lemma_mod_add_multiples_vanish(a - b, len);
    } else {
        lemma_mod_self_0(len);
        lemma_small_mod(0, len as nat);
    }
    if 0 <= j < len {
        lemma_small_mod(j as nat, len as nat);
    }
}

/// The offsets of the nine unit-square translates of a feature point:
/// the point itself, its four edge neighbours, then its four diagonal ones.
pub open spec fn tile_offsets_spec() -> Seq<(int, int)> {
    seq![(0, 0), (1, 0), (0, 1), (-1, 0), (0, -1), (1, 1), (-1, 1), (1, -1), (-1, -1)]
}

/// The translates by which a point set in the unit square is repeated so that
/// a distance field over it tiles.
pub fn tile_offsets() -> (r: Vec<(i8, i8)>)
    ensures
        r@.len() == 9,
        forall|k: int|
            0 <= k < 9 ==> (#[trigger] r@[k].0 as int, r@[k].1 as int) == tile_offsets_spec()[k],
{
    let r: Vec<(i8, i8)> = vec![(0, 0), (1, 0), (0, 1), (-1, 0), (0, -1), (1, 1), (-1, 1), (1, -1), (-1, -1)];
    assert(r@.len() == 9);
    r
}

/// Each of the nine offsets `{-1, 0, 1} x {-1, 0, 1}` occurs exactly once.
pub proof fn lemma_tile_offsets_cover_neighbours()
    ensures
        tile_offsets_spec().no_duplicates(),
        forall|a: int, b: int|
            -1 <= a <= 1 && -1 <= b <= 1 ==> #[trigger] tile_offsets_spec().contains((a, b)),
{
    let s = tile_offsets_spec();
    assert forall|a: int, b: int| -1 <= a <= 1 && -1 <= b <= 1 implies #[trigger] s.contains(
        (a, b),
    ) by {
        let k: int = if a == 0 && b == 0 {
            0
        } else if a == 1 && b == 0 {
            1
        } else if a == 0 && b == 1 {
            2
        } else if a == -1 && b == 0 {
            3
        } else if a == 0 && b == -1 {
            4
        } else if a == 1 && b == 1 {
            5
        } else if a == -1 && b == 1 {
            6
        } else if a == 1 && b == -1 {
            7
        } else {
            8
        };
        assert(s[k] == (a, b));
    }
}

} // verus!
