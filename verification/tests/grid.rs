use checkboxes::grid::Grid;
use checkboxes::grid::IndexError;

#[test]
fn new_grid_is_all_false() {
    let g = Grid::new(10);
    assert_eq!(g.len(), 10);
    let snap = g.snapshot();
    assert_eq!(snap, vec![false; 10]);
}

#[test]
fn toggle_in_bounds_flips_and_reports_new_value() {
    let mut g = Grid::new(4);
    assert_eq!(g.toggle(2), Ok(true));
    assert_eq!(g.get(2), Ok(true));
    assert_eq!(g.toggle(2), Ok(false));
    assert_eq!(g.get(2), Ok(false));
}

#[test]
fn bounds_toggle_and_get_fail_outside_range_and_mutate_nothing() {
    let mut g = Grid::new(3);
    assert_eq!(g.toggle(0), Ok(true));
    let before = g.snapshot();
    assert_eq!(g.toggle(3), Err(IndexError));
    assert_eq!(g.toggle(usize::MAX), Err(IndexError));
    assert_eq!(g.get(3), Err(IndexError));
    assert_eq!(g.get(usize::MAX), Err(IndexError));
    assert_eq!(g.snapshot(), before);
    assert_eq!(g.get(0), Ok(true));
    assert_eq!(g.get(1), Ok(false));
    assert_eq!(g.get(2), Ok(false));
}

#[test]
fn double_toggle_restores_the_cell() {
    let mut g = Grid::new(5);
    let before = g.snapshot();
    assert_eq!(g.toggle(4), Ok(true));
    assert_eq!(g.toggle(4), Ok(false));
    assert_eq!(g.snapshot(), before);
}

#[test]
fn toggling_one_index_never_changes_another() {
    let mut g = Grid::new(6);
    assert_eq!(g.toggle(1), Ok(true));
    assert_eq!(g.toggle(3), Ok(true));
    for j in 0..6 {
        let expected = j == 1 || j == 3;
        assert_eq!(g.get(j), Ok(expected));
    }
}

#[test]
fn odd_and_even_flip_counts_leave_the_expected_parity() {
    let mut g = Grid::new(2);
    for _ in 0..7 {
        g.toggle(0).unwrap();
    }
    for _ in 0..8 {
        g.toggle(1).unwrap();
    }
    assert_eq!(g.get(0), Ok(true));
    assert_eq!(g.get(1), Ok(false));
}

#[test]
fn snapshot_is_an_independent_copy() {
    let mut g = Grid::new(3);
    let snap = g.snapshot();
    g.toggle(1).unwrap();
    assert_eq!(snap, vec![false, false, false]);
    assert_eq!(g.snapshot(), vec![false, true, false]);
}

#[test]
fn zero_length_grid_rejects_every_index() {
    let mut g = Grid::new(0);
    assert_eq!(g.len(), 0);
    assert_eq!(g.toggle(0), Err(IndexError));
    assert_eq!(g.get(0), Err(IndexError));
    assert_eq!(g.snapshot(), Vec::<bool>::new());
}
