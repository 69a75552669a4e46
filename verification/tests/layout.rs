use rat_pong::layout::{background_grid, fits_play_area, net_rows};

#[test]
fn smallest_playable_field_is_ten_by_seven() {
    assert!(fits_play_area(10, 7));
    assert!(fits_play_area(200, 60));
    assert!(!fits_play_area(9, 7));
    assert!(!fits_play_area(10, 6));
    assert!(!fits_play_area(0, 0));
}

#[test]
fn grid_covers_every_other_cell_flipped() {
    let grid = background_grid(5, 3);
    assert_eq!(grid, vec![(0, 2), (2, 2), (4, 2), (0, 0), (2, 0), (4, 0)]);
    let grid = background_grid(4, 4);
    assert_eq!(grid, vec![(0, 3), (2, 3), (0, 1), (2, 1)]);
}

#[test]
fn grid_size_and_bounds() {
    let (w, h) = (41u16, 20u16);
    let grid = background_grid(w, h);
    assert_eq!(grid.len(), 21 * 10);
    assert!(grid.iter().all(|&(x, y)| x < w && y < h));
}

#[test]
fn empty_field_has_no_grid() {
    assert!(background_grid(0, 9).is_empty());
    assert!(background_grid(9, 0).is_empty());
}

#[test]
fn net_marks_every_other_row() {
    assert_eq!(net_rows(5), vec![4, 2, 0]);
    assert_eq!(net_rows(4), vec![3, 1]);
    assert_eq!(net_rows(1), vec![0]);
    assert!(net_rows(0).is_empty());
}
