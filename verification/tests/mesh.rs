use wjmclock::mesh::grid_indices;

#[test]
fn two_by_one_grid() {
    // Vertices 0 1 2 / 3 4 5.
    assert_eq!(grid_indices(2, 1), vec![0, 1, 4, 0, 4, 3, 1, 2, 5, 1, 5, 4]);
}

#[test]
fn map_grid_size_and_last_cell() {
    let v = grid_indices(192, 96);
    assert_eq!(v.len(), 6 * 192 * 96);
    let s = 193u32;
    let i00 = 95 * s + 191;
    assert_eq!(&v[v.len() - 6..], &[i00, i00 + 1, i00 + s + 1, i00, i00 + s + 1, i00 + s]);
    assert_eq!(*v.iter().max().unwrap(), 193 * 97 - 1);
}

#[test]
fn empty_grids() {
    assert!(grid_indices(0, 5).is_empty());
    assert!(grid_indices(5, 0).is_empty());
}
