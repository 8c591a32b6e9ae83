use game_of_life::game::GameOfLife;
use game_of_life::schedule::step_due;

fn snapshot(g: &GameOfLife) -> Vec<Vec<bool>> {
    let mut out = Vec::new();
    for i in 0..g.rows() {
        let mut row = Vec::new();
        for j in 0..g.cols() {
            row.push(g.is_alive(i, j));
        }
        out.push(row);
    }
    out
}

fn live_cells(g: &GameOfLife) -> Vec<(usize, usize)> {
    let mut out = Vec::new();
    for i in 0..g.rows() {
        for j in 0..g.cols() {
            if g.is_alive(i, j) {
                out.push((i, j));
            }
        }
    }
    out
}

fn game_with(rows: usize, cols: usize, live: &[(usize, usize)]) -> GameOfLife {
    let mut g = GameOfLife::new(0, 0);
    g.resize_grid(cols, rows);
    for &(i, j) in live {
        g.set_cell(i, j, true);
    }
    g
}

#[test]
fn new_grid_is_square_dead_and_stopped() {
    let g = GameOfLife::new(20, 42);
    assert_eq!(g.rows(), 20);
    assert_eq!(g.cols(), 20);
    assert_eq!(g.seed(), 42);
    assert!(!g.is_running());
    assert!(live_cells(&g).is_empty());
}

#[test]
fn reseeding_twice_gives_identical_grids() {
    let mut a = game_with(12, 9, &[(0, 0), (3, 4)]);
    let mut b = game_with(12, 9, &[]);
    a.reset_grid(7);
    b.reset_grid(7);
    assert_eq!(snapshot(&a), snapshot(&b));
    let first = snapshot(&a);
    a.reset_grid(7);
    assert_eq!(snapshot(&a), first);
}

#[test]
fn reseeding_fills_with_both_states() {
    let mut g = GameOfLife::new(20, 0);
    g.reset_grid(42);
    let live = live_cells(&g).len();
    assert!(live > 0 && live < 400);
    let mut h = GameOfLife::new(20, 0);
    h.reset_grid(43);
    assert_ne!(snapshot(&g), snapshot(&h));
}

#[test]
fn reseeding_an_empty_grid_is_empty() {
    let mut g = GameOfLife::new(0, 0);
    g.reset_grid(5);
    assert_eq!(g.rows(), 0);
    assert_eq!(g.cols(), 0);
}

#[test]
fn update_keeps_dimensions() {
    let mut g = game_with(4, 7, &[]);
    g.reset_grid(3);
    for _ in 0..5 {
        g.update_game_logic();
        assert_eq!(g.rows(), 4);
        assert_eq!(g.cols(), 7);
    }
}

#[test]
fn neighbor_counts_are_clipped_at_edges() {
    let mut g = GameOfLife::new(3, 0);
    for i in 0..3 {
        for j in 0..3 {
            g.set_cell(i, j, true);
        }
    }
    assert_eq!(g.live_neighbor_count(1, 1), 8);
    assert_eq!(g.live_neighbor_count(0, 0), 3);
    assert_eq!(g.live_neighbor_count(0, 2), 3);
    assert_eq!(g.live_neighbor_count(2, 0), 3);
    assert_eq!(g.live_neighbor_count(2, 2), 3);
    assert_eq!(g.live_neighbor_count(0, 1), 5);
    assert_eq!(g.live_neighbor_count(usize::MAX, usize::MAX), 0);
}

#[test]
fn isolated_cell_dies() {
    let mut g = game_with(5, 5, &[(2, 2)]);
    g.update_game_logic();
    assert!(live_cells(&g).is_empty());
    let mut corner = game_with(3, 4, &[(0, 0)]);
    corner.update_game_logic();
    assert!(live_cells(&corner).is_empty());
}

#[test]
fn block_is_still_life() {
    let block = [(2, 3), (2, 4), (3, 3), (3, 4)];
    let mut g = game_with(6, 8, &block);
    let before = snapshot(&g);
    for _ in 0..10 {
        g.update_game_logic();
        assert_eq!(snapshot(&g), before);
    }
}

#[test]
fn blinker_oscillates_with_period_two() {
    let mut g = game_with(5, 5, &[(2, 1), (2, 2), (2, 3)]);
    g.update_game_logic();
    assert_eq!(live_cells(&g), vec![(1, 2), (2, 2), (3, 2)]);
    g.update_game_logic();
    assert_eq!(live_cells(&g), vec![(2, 1), (2, 2), (2, 3)]);
}

#[test]
fn birth_needs_exactly_three_neighbors() {
    let mut g = game_with(4, 4, &[(0, 0), (0, 1), (1, 0)]);
    g.update_game_logic();
    assert_eq!(live_cells(&g), vec![(0, 0), (0, 1), (1, 0), (1, 1)]);
}

#[test]
fn overcrowded_cell_dies() {
    let mut g = game_with(3, 3, &[(0, 1), (1, 0), (1, 1), (1, 2), (2, 1)]);
    g.update_game_logic();
    assert!(!g.is_alive(1, 1));
}

#[test]
fn resize_grow_keeps_overlap() {
    let mut g = game_with(3, 4, &[(0, 0), (2, 3), (1, 2)]);
    let before = snapshot(&g);
    g.resize_grid(6, 5);
    assert_eq!(g.rows(), 5);
    assert_eq!(g.cols(), 6);
    for i in 0..5 {
        for j in 0..6 {
            let expected = i < 3 && j < 4 && before[i][j];
            assert_eq!(g.is_alive(i, j), expected);
        }
    }
}

#[test]
fn resize_shrink_then_grow_loses_cut_cells() {
    let mut g = game_with(4, 4, &[(0, 0), (3, 3), (1, 3), (3, 1)]);
    g.resize_grid(2, 2);
    assert_eq!(live_cells(&g), vec![(0, 0)]);
    g.resize_grid(4, 4);
    assert_eq!(live_cells(&g), vec![(0, 0)]);
}

#[test]
fn resize_to_zero_is_empty() {
    let mut g = game_with(3, 3, &[(1, 1)]);
    g.resize_grid(0, 5);
    assert_eq!(g.rows(), 5);
    assert_eq!(g.cols(), 0);
    g.update_game_logic();
    g.resize_grid(3, 3);
    assert!(live_cells(&g).is_empty());
}

#[test]
fn invalid_seed_text_changes_nothing() {
    let mut g = game_with(4, 4, &[(1, 1), (2, 2)]);
    let before = snapshot(&g);
    for text in ["", "abc", "-1", "12x", " 5", "+", "18446744073709551616"] {
        g.start(text);
        assert!(!g.is_running());
        assert_eq!(g.seed(), 0);
        assert_eq!(snapshot(&g), before);
    }
}

#[test]
fn valid_seed_text_starts_from_that_seed() {
    let mut g = GameOfLife::new(10, 0);
    g.start("123");
    assert!(g.is_running());
    assert_eq!(g.seed(), 123);
    let mut h = GameOfLife::new(10, 0);
    h.reset_grid(123);
    assert_eq!(snapshot(&g), snapshot(&h));
    g.start("+18446744073709551615");
    assert_eq!(g.seed(), u64::MAX);
}

#[test]
fn toggling_keeps_the_grid() {
    let mut g = game_with(3, 3, &[(1, 1)]);
    let before = snapshot(&g);
    g.toggle_running();
    assert!(g.is_running());
    g.toggle_running();
    assert!(!g.is_running());
    assert_eq!(snapshot(&g), before);
}

#[test]
fn step_is_due_after_the_interval() {
    assert!(step_due(true, 0, 100));
    assert!(step_due(true, 1_000, 5_000));
    assert!(!step_due(true, 0, 99));
    assert!(!step_due(false, 0, 1_000));
    assert!(!step_due(true, 500, 0));
    assert!(!step_due(true, i64::MAX, i64::MAX));
    assert!(step_due(true, i64::MIN, i64::MAX));
}

#[test]
fn tick_fits_grid_to_display() {
    let mut g = game_with(3, 3, &[(0, 0), (2, 2)]);
    g.update_at(59, 41, 10, 0);
    assert_eq!(g.cols(), 5);
    assert_eq!(g.rows(), 4);
    assert_eq!(live_cells(&g), vec![(0, 0), (2, 2)]);
    g.update_at(5, 9, 10, 0);
    assert_eq!(g.rows(), 0);
    assert_eq!(g.cols(), 0);
}

#[test]
fn tick_steps_only_when_running_and_due() {
    let mut g = game_with(5, 5, &[(2, 1), (2, 2), (2, 3)]);
    g.start_seeded(0, 1_000);
    let seeded = snapshot(&g);
    g.update_at(50, 50, 10, 1_050);
    assert_eq!(snapshot(&g), seeded);
    g.update_at(50, 50, 10, 1_100);
    let mut expected = game_with(5, 5, &[]);
    expected.reset_grid(0);
    expected.update_game_logic();
    assert_eq!(snapshot(&g), snapshot(&expected));
    g.toggle_running();
    g.update_at(50, 50, 10, 10_000);
    assert_eq!(snapshot(&g), snapshot(&expected));
}

#[test]
fn tick_with_blinker_steps_once() {
    let mut g = game_with(5, 5, &[(2, 1), (2, 2), (2, 3)]);
    g.toggle_running();
    g.update(50, 50, 10);
    let live = live_cells(&g);
    assert!(live == vec![(1, 2), (2, 2), (3, 2)] || live == vec![(2, 1), (2, 2), (2, 3)]);
    assert_eq!(g.rows(), 5);
}
