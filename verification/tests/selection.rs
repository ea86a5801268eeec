use tuidash::selection::{next_index, prev_index, select_next, select_prev};

#[test]
fn next_index_steps_and_wraps() {
    assert_eq!(next_index(0, 3), 1);
    assert_eq!(next_index(1, 3), 2);
    assert_eq!(next_index(2, 3), 0);
    assert_eq!(next_index(0, 1), 0);
}

#[test]
fn prev_index_steps_and_wraps() {
    assert_eq!(prev_index(0, 3), 2);
    assert_eq!(prev_index(2, 3), 1);
    assert_eq!(prev_index(0, 1), 0);
}

#[test]
fn forward_len_times_returns_to_start() {
    let len: usize = 3;
    for start in 0..len {
        let mut sel = Some(start);
        for _ in 0..len {
            sel = select_next(sel, len);
        }
        assert_eq!(sel, Some(start));
    }
}

#[test]
fn backward_from_zero_selects_last() {
    assert_eq!(select_prev(Some(0), 5), Some(4));
    assert_eq!(select_prev(Some(0), 1), Some(0));
}

#[test]
fn empty_collection_has_no_selection() {
    assert_eq!(select_next(None, 0), None);
    assert_eq!(select_prev(None, 0), None);
}

#[test]
fn absent_selection_starts_at_first_item() {
    assert_eq!(select_next(None, 5), Some(0));
    assert_eq!(select_prev(None, 5), Some(0));
}
