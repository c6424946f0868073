use life::Grid;
use life::grid::HEIGHT;
use life::grid::WIDTH;
use life::grid::check;
use life::grid::randomtable;
use life::grid::zerotable;

/// Scans the whole grid and asserts that exactly the cells in `alive` are
/// alive.
fn assert_only_alive(g: &Grid, alive: &[(i32, i32)]) {
    for x in 0..WIDTH {
        for y in 0..HEIGHT {
            let expected = alive.contains(&(x, y));
            assert_eq!(g.get(x, y), Some(expected), "cell ({}, {})", x, y);
        }
    }
}

#[test]
fn check_bounds() {
    assert!(check(0, 0));
    assert!(check(WIDTH - 1, HEIGHT - 1));
    assert!(!check(-1, 0));
    assert!(!check(0, -1));
    assert!(!check(WIDTH, 0));
    assert!(!check(0, HEIGHT));
}

#[test]
fn get_set_out_of_bounds() {
    let mut g = zerotable();
    g.set(7, 9, true);

    assert_eq!(g.get(-1, 0), None);
    assert_eq!(g.get(0, -1), None);
    assert_eq!(g.get(WIDTH, 0), None);
    assert_eq!(g.get(0, HEIGHT), None);

    g.set(-1, 0, true);
    g.set(0, -1, true);
    g.set(WIDTH, 0, true);
    g.set(0, HEIGHT, true);
    g.set(WIDTH, HEIGHT, true);

    assert_only_alive(&g, &[(7, 9)]);
}

#[test]
fn fill_clears_every_cell() {
    let mut g = randomtable();
    g.fill(false);
    assert_only_alive(&g, &[]);
}

#[test]
fn copy_from_copies_every_cell() {
    let mut a = zerotable();
    a.set(3, 4, true);
    a.set(100, 120, true);
    let mut b = randomtable();
    b.copy_from(&a);
    assert_only_alive(&b, &[(3, 4), (100, 120)]);
}

#[test]
fn randomize_fraction_near_half() {
    let g = randomtable();
    let mut alive: u32 = 0;
    for x in 0..WIDTH {
        for y in 0..HEIGHT {
            if g.get(x, y) == Some(true) {
                alive += 1;
            }
        }
    }
    let fraction = alive as f64 / ((WIDTH * HEIGHT) as f64);
    assert!(
        (0.45..=0.55).contains(&fraction),
        "live-cell fraction {} is not close to 0.5",
        fraction
    );
}

#[test]
fn block_is_fixed_point() {
    let mut g = zerotable();
    let block = [(10, 10), (11, 10), (10, 11), (11, 11)];
    for &(x, y) in &block {
        g.set(x, y, true);
    }
    g.update();
    assert_only_alive(&g, &block);
    g.update();
    assert_only_alive(&g, &block);
}

#[test]
fn blinker_oscillates() {
    let mut g = zerotable();
    for &(x, y) in &[(20, 19), (20, 20), (20, 21)] {
        g.set(x, y, true);
    }
    g.update();
    assert_only_alive(&g, &[(19, 20), (20, 20), (21, 20)]);
    g.update();
    assert_only_alive(&g, &[(20, 19), (20, 20), (20, 21)]);
}

#[test]
fn isolated_cell_dies() {
    let mut g = zerotable();
    g.set(5, 5, true);
    g.update();
    assert_only_alive(&g, &[]);
}

#[test]
fn birth_on_three_neighbors() {
    let mut g = zerotable();
    // Three alive neighbors of the dead cell (30, 30).
    for &(x, y) in &[(29, 29), (29, 30), (29, 31)] {
        g.set(x, y, true);
    }
    g.update();
    assert_eq!(g.get(30, 30), Some(true));
}

#[test]
fn update_depends_only_on_snapshot() {
    let mut a = randomtable();
    let mut b = zerotable();
    b.copy_from(&a);
    a.update();
    b.update();
    for x in 0..WIDTH {
        for y in 0..HEIGHT {
            assert_eq!(a.get(x, y), b.get(x, y), "cell ({}, {})", x, y);
        }
    }
}

#[test]
fn glider_translates() {
    let mut g = zerotable();
    // A glider with its bounding box at (40, 40); after four generations it
    // has moved one cell along each axis.
    let glider = [(41, 40), (42, 41), (40, 42), (41, 42), (42, 42)];
    for &(x, y) in &glider {
        g.set(x, y, true);
    }
    for _ in 0..4 {
        g.update();
    }
    let moved: Vec<(i32, i32)> = glider.iter().map(|&(x, y)| (x + 1, y + 1)).collect();
    assert_only_alive(&g, &moved);
}

#[test]
fn edge_cells_have_no_wraparound_neighbors() {
    let mut g = zerotable();
    // A column blinker centered on the left edge: its off-grid neighbors
    // contribute nothing, so the two end cells die and no cell on the
    // opposite edge is born.
    for &(x, y) in &[(0, 49), (0, 50), (0, 51)] {
        g.set(x, y, true);
    }
    g.update();
    assert_only_alive(&g, &[(0, 50), (1, 50)]);
}
