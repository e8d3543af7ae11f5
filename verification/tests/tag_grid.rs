use frename::tag_grid::filter_before_toggle;
use frename::tag_grid::{
    checked_index, neighbour_after_delete, select_down, select_left, select_right, select_up,
    tag_to_toggle, visible_selection,
};

const IDS: [u64; 7] = [10, 11, 12, 13, 14, 15, 16];

#[test]
fn left_and_right_wrap_around() {
    assert_eq!(select_right(&IDS, Some(16)), Some(10));
    assert_eq!(select_left(&IDS, Some(10)), Some(16));
    assert_eq!(select_right(&IDS, None), Some(10));
    assert_eq!(select_left(&IDS, None), Some(16));
    assert_eq!(select_right(&IDS, Some(12)), Some(13));
    assert_eq!(select_left(&[], Some(12)), None);
}

#[test]
fn left_undoes_right() {
    for id in IDS {
        assert_eq!(select_left(&IDS, select_right(&IDS, Some(id))), Some(id));
        assert_eq!(select_right(&IDS, select_left(&IDS, Some(id))), Some(id));
    }
}

#[test]
fn up_and_down_move_by_a_row_and_wrap_in_the_column() {
    // Three to a row: 10 11 12 / 13 14 15 / 16
    assert_eq!(select_down(&IDS, Some(11), 3), Some(14));
    assert_eq!(select_down(&IDS, Some(14), 3), Some(11), "lowest of its column: to the top");
    assert_eq!(select_up(&IDS, Some(14), 3), Some(11));
    assert_eq!(select_up(&IDS, Some(10), 3), Some(16));
    assert_eq!(select_up(&IDS, Some(11), 3), Some(14), "the last row is short");
    assert_eq!(select_down(&IDS, None, 3), Some(10));
    assert_eq!(select_up(&IDS, None, 3), Some(16));
    assert_eq!(select_down(&IDS, Some(12), 0), Some(13), "no columns counts as one");
}

#[test]
fn up_undoes_down() {
    for id in IDS {
        for cols in 1..9 {
            assert_eq!(select_up(&IDS, select_down(&IDS, Some(id), cols), cols), Some(id));
            assert_eq!(select_down(&IDS, select_up(&IDS, Some(id), cols), cols), Some(id));
        }
    }
}

#[test]
fn a_hidden_tag_is_not_kept_selected() {
    assert_eq!(visible_selection(&IDS, Some(12)), Some(12));
    assert_eq!(visible_selection(&IDS, Some(99)), None);
    assert_eq!(visible_selection(&IDS, None), None);
}

#[test]
fn shift_space_toggles_the_selected_or_the_first_tag() {
    assert_eq!(tag_to_toggle(&IDS, Some(13)), Some((13, false)));
    assert_eq!(tag_to_toggle(&IDS, Some(99)), Some((10, true)));
    assert_eq!(tag_to_toggle(&[], None), None);
}

#[test]
fn after_a_delete_the_left_neighbour_is_selected() {
    assert_eq!(neighbour_after_delete(&IDS, 3), Some(12));
    assert_eq!(neighbour_after_delete(&IDS, 0), Some(10));
    assert_eq!(neighbour_after_delete(&[], 0), None);
    assert_eq!(neighbour_after_delete(&IDS, 9), None);
}

#[test]
fn a_dropped_chip_lands_after_the_checked_tags_before_it() {
    let checked = [true, false, true, true];
    assert_eq!(checked_index(&checked, 0), 0);
    assert_eq!(checked_index(&checked, 2), 1);
    assert_eq!(checked_index(&checked, 3), 2);
    assert_eq!(checked_index(&checked, 10), 3);
}

#[test]
fn space_takes_the_trailing_white_space_out_of_the_filter() {
    assert_eq!(filter_before_toggle("car "), Some("car".to_string()));
    assert_eq!(filter_before_toggle("red car \t "), Some("red car".to_string()));
    assert_eq!(filter_before_toggle(" "), Some(String::new()));
    assert_eq!(filter_before_toggle("car"), None);
    assert_eq!(filter_before_toggle("car\t"), None, "only a space at the end");
    assert_eq!(filter_before_toggle(""), None);
}
