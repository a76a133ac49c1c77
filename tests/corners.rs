use noisette::{grad2, grad4, simplex2_corners, simplex4_corners, simplex4_ranks, PermutationTable};
use rand::rngs::StdRng;
use rand::SeedableRng;

fn identity_table() -> PermutationTable {
    let draws: Vec<usize> = (1..256usize).rev().collect();
    PermutationTable::from_draws(&draws)
}

fn rotated_table() -> PermutationTable {
    PermutationTable::from_draws(&vec![0; 255])
}

fn comparisons(v: [f32; 4]) -> [bool; 6] {
    [v[0] > v[1], v[0] > v[2], v[0] > v[3], v[1] > v[2], v[1] > v[3], v[2] > v[3]]
}

#[test]
fn grad2_table_entries() {
    assert_eq!(grad2(0), (1, 1));
    assert_eq!(grad2(3), (-1, -1));
    assert_eq!(grad2(6), (1, 0));
    assert_eq!(grad2(11), (0, -1));
    assert_eq!(grad2(17), (-1, 0));
    assert_eq!(grad2(255), (-1, -1));
}

#[test]
fn grad4_table_entries() {
    assert_eq!(grad4(0), (0, 1, 1, 1));
    assert_eq!(grad4(13), (-1, 0, 1, -1));
    assert_eq!(grad4(19), (1, -1, 0, -1));
    assert_eq!(grad4(31), (-1, -1, -1, 0));
    assert_eq!(grad4(45), (-1, 0, 1, -1));
    assert_eq!(grad4(255), (-1, -1, -1, 0));
}

#[test]
fn grad4_directions_have_one_zero() {
    for h in 0..256usize {
        let g = grad4(h);
        let c = [g.0, g.1, g.2, g.3];
        assert_eq!(c.iter().filter(|&&x| x == 0).count(), 1);
        assert!(c.iter().all(|&x| x == 0 || x == 1 || x == -1));
    }
}

#[test]
fn simplex2_corners_below_the_diagonal() {
    let t = rotated_table();
    let c = simplex2_corners(&t, 3, 4, true);
    assert_eq!(c.len(), 3);
    assert_eq!(c[0].offset, (0, 0));
    assert_eq!(c[1].offset, (1, 0));
    assert_eq!(c[2].offset, (1, 1));
    assert_eq!(c[0].gradient, (0, -1));
    assert_eq!(c[1].gradient, (0, 1));
    assert_eq!(c[2].gradient, (0, -1));
}

#[test]
fn simplex2_corners_above_the_diagonal() {
    let t = identity_table();
    let c = simplex2_corners(&t, 3, 4, false);
    assert_eq!(c[1].offset, (0, 1));
    assert_eq!(c[0].gradient, grad2(7));
    assert_eq!(c[1].gradient, grad2(8));
    assert_eq!(c[2].gradient, grad2(9));
}

#[test]
fn simplex2_corners_wrap_at_the_largest_cell() {
    let t = rotated_table();
    let c = simplex2_corners(&t, i32::MAX, 0, true);
    assert_eq!(c[0].gradient, (-1, 1));
    assert_eq!(c[1].gradient, (1, -1));
    assert_eq!(c[2].gradient, (-1, -1));
}

#[test]
fn neighbouring_cells_share_corner_gradients() {
    let t = PermutationTable::shuffled(&mut StdRng::seed_from_u64(11));
    for x in -10..10 {
        for y in -10..10 {
            let here = simplex2_corners(&t, x, y, x > y);
            let next = simplex2_corners(&t, x + 1, y + 1, false);
            assert_eq!(here[2].gradient, next[0].gradient);
        }
    }
}

#[test]
fn ranks_of_descending_offsets() {
    assert_eq!(simplex4_ranks(&[true; 6]), [3, 2, 1, 0]);
    assert_eq!(simplex4_ranks(&[false; 6]), [0, 1, 2, 3]);
    assert_eq!(simplex4_ranks(&comparisons([0.3, 0.1, 0.4, 0.2])), [2, 0, 3, 1]);
}

#[test]
fn ties_go_to_the_higher_index() {
    assert_eq!(simplex4_ranks(&comparisons([0.5, 0.5, 0.5, 0.5])), [0, 1, 2, 3]);
    assert_eq!(simplex4_ranks(&comparisons([0.7, 0.2, 0.7, 0.2])), [2, 0, 3, 1]);
}

#[test]
fn ranks_are_a_permutation_for_real_offsets() {
    let samples = [
        [0.1, 0.9, 0.5, 0.3],
        [0.0, 0.0, 1.0, -1.0],
        [-0.2, 0.4, 0.4, 0.1],
        [0.25, 0.5, 0.75, 1.0],
    ];
    for v in samples {
        let mut r = simplex4_ranks(&comparisons(v));
        r.sort();
        assert_eq!(r, [0, 1, 2, 3]);
    }
}

#[test]
fn simplex4_corners_walk_one_axis_at_a_time() {
    let t = identity_table();
    let c = simplex4_corners(&t, (0, 0, 0, 0), &comparisons([0.3, 0.1, 0.4, 0.2]));
    assert_eq!(c.len(), 5);
    assert_eq!(c[0].offset, (0, 0, 0, 0));
    assert_eq!(c[1].offset, (0, 0, 1, 0));
    assert_eq!(c[2].offset, (1, 0, 1, 0));
    assert_eq!(c[3].offset, (1, 0, 1, 1));
    assert_eq!(c[4].offset, (1, 1, 1, 1));
    assert_eq!(c[0].gradient, (0, 1, 1, 1));
    assert_eq!(c[1].gradient, (0, 1, 1, -1));
    assert_eq!(c[2].gradient, (0, 1, -1, 1));
    assert_eq!(c[3].gradient, (0, 1, -1, -1));
    assert_eq!(c[4].gradient, (0, -1, 1, 1));
}

#[test]
fn simplex4_corner_gradients_follow_the_hash() {
    let t = PermutationTable::shuffled(&mut StdRng::seed_from_u64(5));
    let cell = (123, -231, 312, 273);
    let c = simplex4_corners(&t, cell, &comparisons([0.9, 0.1, 0.5, 0.3]));
    for corner in &c {
        let o = corner.offset;
        let h = t.hash4(cell.0 + o.0, cell.1 + o.1, cell.2 + o.2, cell.3 + o.3);
        assert_eq!(corner.gradient, grad4(h));
    }
}
