use searcher::grid::{grid_indices, grid_len};

#[test]
fn grid_len_of_zero_and_one_is_one() {
    assert_eq!(grid_len(0), 1);
    assert_eq!(grid_len(1), 1);
}

#[test]
fn grid_len_of_many_is_many() {
    assert_eq!(grid_len(2), 2);
    assert_eq!(grid_len(60), 60);
    assert_eq!(grid_len(120), 120);
}

#[test]
fn grid_indices_single_point() {
    assert_eq!(grid_indices(0), vec![0]);
    assert_eq!(grid_indices(1), vec![0]);
}

#[test]
fn grid_indices_consecutive_and_end_at_n_minus_one() {
    let idx = grid_indices(5);
    assert_eq!(idx, vec![0, 1, 2, 3, 4]);
    let big = grid_indices(60);
    assert_eq!(big.len(), 60);
    assert_eq!(big[0], 0);
    assert_eq!(*big.last().unwrap(), 59);
}

#[test]
fn grid_indices_place_points_at_both_ends() {
    let (a, b, n) = (0.0_f64, 10.0_f64, 6usize);
    let step = (b - a) / (n as f64 - 1.0);
    let pts: Vec<f64> = grid_indices(n).into_iter().map(|i| a + step * i as f64).collect();
    assert_eq!(pts, vec![0.0, 2.0, 4.0, 6.0, 8.0, 10.0]);
}
