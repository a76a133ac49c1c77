//! The fixed gradient directions that hashed lattice points select from.
use vstd::prelude::*;

verus! {

/// Number of 2D gradient directions.
pub const GRAD2_COUNT: usize = 12;

/// Number of 4D gradient directions.
pub const GRAD4_COUNT: usize = 32;

/// The 2D directions: the four diagonals, then the two horizontal and the two
/// vertical unit vectors, each of the latter twice.
pub open spec fn grad2_table() -> Seq<(int, int)> {
    seq![
        (1, 1),
        (-1, 1),
        (1, -1),
        (-1, -1),
        (1, 0),
        (-1, 0),
        (1, 0),
        (-1, 0),
        (0, 1),
        (0, -1),
        (0, 1),
        (0, -1),
    ]
}

/// The direction that hash `h` selects: entry `h mod 12`.
pub open spec fn grad2_spec(h: int) -> (int, int) {
    grad2_table()[h % 12]
}

/// `1` when bit `b` (a power of two) of `bits` is clear, `-1` when it is set.
pub open spec fn sign_of_bit(bits: int, b: int) -> int {
    if (bits / b) % 2 == 0 {
        1
    } else {
        -1
    }
}

/// The 4D direction that hash `h` selects, entry `i = h mod 32` of a table of
/// the 32 midpoints of the edges of the 4-cube: axis `i / 8` is zero and the
/// other three axes, in order, carry the signs of bits 2, 1 and 0 of `i`.
pub open spec fn grad4_spec(h: int) -> (int, int, int, int) {
    let i = h % 32;
    let a = sign_of_bit(i, 4);
    let b = sign_of_bit(i, 2);
    let c = sign_of_bit(i, 1);
    if i / 8 == 0 {
        (0, a, b, c)
    } else if i / 8 == 1 {
        (a, 0, b, c)
    } else if i / 8 == 2 {
        (a, b, 0, c)
    } else {
        (a, b, c, 0)
    }
}

/// Every 2D direction has components in `{-1, 0, 1}` and is not zero.
pub proof fn lemma_grad2_shape(h: int)
    ensures
        -1 <= grad2_spec(h).0 <= 1,
        -1 <= grad2_spec(h).1 <= 1,
        grad2_spec(h) != (0int, 0int),
{
    let i = h % 12;
    assert(0 <= i < 12);
}

/// Every 4D direction has components in `{-1, 0, 1}` and squared length 3:
/// exactly one component is zero.
pub proof fn lemma_grad4_shape(h: int)
    ensures
        ({
            let g = grad4_spec(h);
            &&& -1 <= g.0 <= 1 && -1 <= g.1 <= 1 && -1 <= g.2 <= 1 && -1 <= g.3 <= 1
            &&& g.0 * g.0 + g.1 * g.1 + g.2 * g.2 + g.3 * g.3 == 3
        }),
{
    let i = h % 32;
    let a = sign_of_bit(i, 4);
    let b = sign_of_bit(i, 2);
    let c = sign_of_bit(i, 1);
    assert(a * a == 1 && b * b == 1 && c * c == 1) by (nonlinear_arith)
        requires
            a == 1 || a == -1,
            b == 1 || b == -1,
            c == 1 || c == -1,
    ;
    let g = grad4_spec(h);
    if i / 8 == 0 {
        assert(g == (0int, a, b, c));
    } else if i / 8 == 1 {
        assert(g == (a, 0int, b, c));
    } else if i / 8 == 2 {
        assert(g == (a, b, 0int, c));
    } else {
        assert(g == (a, b, c, 0int));
    }
}

/// The 2D gradient direction for hash `h`.
pub fn grad2(h: usize) -> (g: (i8, i8))
    ensures
        (g.0 as int, g.1 as int) == grad2_spec(h as int),
{
    let i = h % GRAD2_COUNT;
    let g: (i8, i8) = match i {
        0 => (1, 1),
        1 => (-1, 1),
        2 => (1, -1),
        3 => (-1, -1),
        4 => (1, 0),
        5 => (-1, 0),
        6 => (1, 0),
        7 => (-1, 0),
        8 => (0, 1),
        9 => (0, -1),
        10 => (0, 1),
        _ => (0, -1),
    };
    g
}

/// The 4D gradient direction for hash `h`.
pub fn grad4(h: usize) -> (g: (i8, i8, i8, i8))
    ensures
        (g.0 as int, g.1 as int, g.2 as int, g.3 as int) == grad4_spec(h as int),
{
    let i = h % GRAD4_COUNT;
    let g: (i8, i8, i8, i8) = match i {
        0 => (0, 1, 1, 1),
        1 => (0, 1, 1, -1),
        2 => (0, 1, -1, 1),
        3 => (0, 1, -1, -1),
        4 => (0, -1, 1, 1),
        5 => (0, -1, 1, -1),
        6 => (0, -1, -1, 1),
        7 => (0, -1, -1, -1),
        8 => (1, 0, 1, 1),
        9 => (1, 0, 1, -1),
        10 => (1, 0, -1, 1),
        11 => (1, 0, -1, -1),
        12 => (-1, 0, 1, 1),
        13 => (-1, 0, 1, -1),
        14 => (-1, 0, -1, 1),
        15 => (-1, 0, -1, -1),
        16 => (1, 1, 0, 1),
        17 => (1, 1, 0, -1),
        18 => (1, -1, 0, 1),
        19 => (1, -1, 0, -1),
        20 => (-1, 1, 0, 1),
        21 => (-1, 1, 0, -1),
        22 => (-1, -1, 0, 1),
        23 => (-1, -1, 0, -1),
        24 => (1, 1, 1, 0),
        25 => (1, 1, -1, 0),
        26 => (1, -1, 1, 0),
        27 => (1, -1, -1, 0),
        28 => (-1, 1, 1, 0),
        29 => (-1, 1, -1, 0),
        30 => (-1, -1, 1, 0),
        _ => (-1, -1, -1, 0),
    };
    g
}

} // verus!
