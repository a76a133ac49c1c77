use noisette::{perlin_cell, tile_offsets};

fn nodes(fx: i32, fy: i32, rows: usize, cols: usize) -> (usize, usize, usize, usize) {
    let c = perlin_cell(fx, fy, rows, cols);
    (c.x0, c.x1, c.y0, c.y1)
}

#[test]
fn square_grid_cell_inside() {
    assert_eq!(nodes(1, 2, 4, 4), (1, 2, 2, 3));
}

#[test]
fn square_grid_cell_wraps_at_the_edge() {
    assert_eq!(nodes(3, 3, 4, 4), (3, 0, 3, 0));
}

#[test]
fn negative_coordinates_wrap_euclidean() {
    assert_eq!(nodes(-1, 7, 3, 3), (2, 0, 1, 2));
    let c = perlin_cell(i32::MIN, i32::MIN, 3, 5);
    assert_eq!(c.x0, (i32::MIN as i64).rem_euclid(3) as usize);
    assert_eq!(c.y0, (i32::MIN as i64).rem_euclid(5) as usize);
}

#[test]
fn single_node_grid() {
    for k in [-5, 0, 1, 17] {
        assert_eq!(nodes(k, k, 1, 1), (0, 0, 0, 0));
    }
}

#[test]
fn rectangular_grid_cells() {
    // five rows, four columns: x wraps every 5 nodes, y every 4
    assert_eq!(nodes(4, 3, 5, 4), (4, 0, 3, 0));
    assert_eq!(nodes(2, 1, 5, 4), (2, 3, 1, 2));
    assert_eq!(nodes(-1, -1, 5, 4), (4, 0, 3, 0));
}

#[test]
fn rectangular_grid_reads_every_node_once_per_period() {
    let rows: Vec<usize> = (0..5).map(|fx| perlin_cell(fx, 0, 5, 4).x0).collect();
    assert_eq!(rows, vec![0, 1, 2, 3, 4]);
    let cols: Vec<usize> = (0..4).map(|fy| perlin_cell(0, fy, 5, 4).y0).collect();
    assert_eq!(cols, vec![0, 1, 2, 3]);
}

#[test]
fn cells_repeat_with_the_grid() {
    for fx in -12..12 {
        for fy in -12..12 {
            let a = nodes(fx, fy, 5, 4);
            assert_eq!(a, nodes(fx + 5, fy + 4, 5, 4));
            assert!(a.0 < 5 && a.1 < 5 && a.2 < 4 && a.3 < 4);
        }
    }
}

#[test]
fn nine_tile_offsets() {
    let t = tile_offsets();
    assert_eq!(
        t,
        vec![(0, 0), (1, 0), (0, 1), (-1, 0), (0, -1), (1, 1), (-1, 1), (1, -1), (-1, -1)]
    );
    for a in -1..=1i8 {
        for b in -1..=1i8 {
            assert_eq!(t.iter().filter(|&&o| o == (a, b)).count(), 1);
        }
    }
}
