use frename::markers::{
    jump_to, list_note, lit_index, name_from_input, nearest, shown_name, time_label, AddKey,
    DeleteKey, MarkersState, RowHeader,
    NAME_WINDOW_MS, PREVIOUS_SLACK_MS,
};

#[test]
fn the_lit_row_is_the_last_marker_at_or_before_the_playhead() {
    let starts = [1000, 5000];
    assert_eq!(lit_index(&starts, 0), None);
    assert_eq!(lit_index(&starts, 1000), Some(0));
    assert_eq!(lit_index(&starts, 4999), Some(0));
    assert_eq!(lit_index(&starts, 9000), Some(1));
}

#[test]
fn the_nearest_marker_within_the_snap_distance() {
    let starts = [1000, 5000, 5200];
    assert_eq!(nearest(&starts, 5150, 100), Some(2));
    assert_eq!(nearest(&starts, 5100, 100), Some(1), "of two as near, the first");
    assert_eq!(nearest(&starts, 3000, 100), None);
    assert_eq!(nearest(&[], 3000, 100), None);
}

#[test]
fn jumps_go_exactly_onto_the_next_or_previous_marker() {
    let starts = [5000, 1000, 9000];
    assert_eq!(jump_to(&starts, 1000, true), Some(5000));
    assert_eq!(jump_to(&starts, 9000, true), None);
    assert_eq!(jump_to(&starts, 5000, false), Some(1000));
    assert_eq!(jump_to(&starts, 5000 + PREVIOUS_SLACK_MS, false), Some(5000));
    assert_eq!(jump_to(&starts, 5000 + PREVIOUS_SLACK_MS - 1, false), Some(1000));
    assert_eq!(jump_to(&starts, 500, false), None);
}

#[test]
fn a_marker_name_is_one_line() {
    assert_eq!(name_from_input("two\r\nlines\n"), "two  lines ");
    assert_eq!(name_from_input("plain"), "plain");
}

#[test]
fn opening_a_row_closes_the_color_picker_and_forgets_the_last_add() {
    let mut state = MarkersState::new();
    state.toggle_color_picker("a".to_string());
    state.added("b".to_string(), 100);
    state.open("c".to_string());
    assert_eq!(state.editing(), Some("c"));
    assert!(state.is_editing());
    assert_eq!(state.color_picker(), None);
    assert_eq!(state.take_recently_added(150), None);
    state.close();
    assert!(!state.is_editing());
}

#[test]
fn the_color_picker_toggles() {
    let mut state = MarkersState::new();
    state.toggle_color_picker("a".to_string());
    assert_eq!(state.color_picker(), Some("a"));
    state.toggle_color_picker("b".to_string());
    assert_eq!(state.color_picker(), Some("b"));
    state.toggle_color_picker("b".to_string());
    assert_eq!(state.color_picker(), None);
}

#[test]
fn a_second_f2_names_the_marker_just_added() {
    let mut state = MarkersState::new();
    state.added("m".to_string(), 1000);
    assert_eq!(state.take_recently_added(1000 + NAME_WINDOW_MS - 1), Some("m".to_string()));
    assert_eq!(state.take_recently_added(1001), None, "taken once");
    state.added("m".to_string(), 1000);
    assert_eq!(state.take_recently_added(1000 + NAME_WINDOW_MS), None, "too late");
    state.added("m".to_string(), 1000);
    state.forget_added();
    assert_eq!(state.take_recently_added(1001), None);
}

#[test]
fn following_reports_a_change_of_row() {
    let mut state = MarkersState::new();
    assert!(state.follow(Some(2)));
    assert!(!state.follow(Some(2)));
    assert!(state.follow(None));
    state.open("x".to_string());
    state.reset();
    assert_eq!(state.editing(), None);
    assert!(state.follow(Some(0)));
}

#[test]
fn ranged_markers_show_both_ends() {
    // A marker at 41_000 ms, its times as the marker library writes them.
    let mut duration_ms: u64 = 0;
    assert_eq!(time_label(duration_ms, "0:41", "0:41"), "0:41");
    duration_ms = 6_000;
    assert_eq!(time_label(duration_ms, "0:41", "0:47"), "0:41–0:47");
}

fn guids(list: &[&str]) -> Vec<String> {
    list.iter().map(|g| g.to_string()).collect()
}

#[test]
fn f2_adds_a_marker_and_f2_again_opens_it() {
    let mut state = MarkersState::new();
    assert_eq!(state.add_key(true, None, 1000, &guids(&[])), AddKey::Add { remember: true });
    state.added("new".to_string(), 1000);
    assert_eq!(
        state.add_key(true, Some(Some("new".to_string())), 1200, &guids(&["new"])),
        AddKey::OpenRow("new".to_string())
    );
    assert_eq!(state.editing(), Some("new"));
}

#[test]
fn f2_with_a_row_open_closes_it_and_adds_unless_a_marker_is_there() {
    let mut state = MarkersState::new();
    state.open("a".to_string());
    assert_eq!(state.add_key(true, None, 0, &guids(&["a"])), AddKey::Add { remember: false });
    assert!(!state.is_editing());
    state.open("a".to_string());
    assert_eq!(state.add_key(true, Some(Some("a".to_string())), 0, &guids(&["a"])), AddKey::Closed);
    assert!(!state.is_editing());
}

#[test]
fn f2_on_a_marker_opens_its_row_unless_it_is_read_only() {
    let mut state = MarkersState::new();
    assert_eq!(
        state.add_key(true, Some(Some("b".to_string())), 0, &guids(&["b"])),
        AddKey::OpenRow("b".to_string())
    );
    let mut state = MarkersState::new();
    assert_eq!(state.add_key(true, Some(None), 0, &guids(&[])), AddKey::ReadOnly);
    assert_eq!(state.add_key(false, None, 0, &guids(&[])), AddKey::ShowMarkerList);
}

#[test]
fn a_deleted_added_marker_is_not_opened() {
    let mut state = MarkersState::new();
    state.added("gone".to_string(), 1000);
    assert_eq!(state.add_key(true, None, 1100, &guids(&[])), AddKey::Add { remember: true });
}

#[test]
fn shift_f2_deletes_the_marker_under_the_playhead() {
    let mut state = MarkersState::new();
    assert_eq!(state.delete_key(Some(Some("m".to_string()))), DeleteKey::Delete("m".to_string()));
    assert_eq!(state.delete_key(Some(None)), DeleteKey::NoMarkerHere);
    assert_eq!(state.delete_key(None), DeleteKey::NoMarkerHere);
    state.open("m".to_string());
    assert_eq!(state.delete_key(Some(Some("m".to_string()))), DeleteKey::Nothing);
    state.marker_deleted("other");
    assert!(state.is_editing());
    state.marker_deleted("m");
    assert!(!state.is_editing());
}

#[test]
fn the_list_follows_the_lit_row_when_it_changes() {
    let mut state = MarkersState::new();
    assert_eq!(state.follow_list(true, Some(Some(3)), false), Some(3));
    assert_eq!(state.follow_list(true, Some(Some(3)), false), None, "not fought on every tick");
    assert_eq!(state.follow_list(true, Some(Some(3)), true), Some(3));
    assert_eq!(state.follow_list(true, Some(None), false), Some(0));
    assert_eq!(state.follow_list(true, None, true), None);
    assert_eq!(state.follow_list(false, Some(Some(1)), true), None);
    assert_eq!(state.follow_list(true, Some(None), false), None, "hidden list forgot the row: none before, none now");
    state.open("x".to_string());
    assert_eq!(state.follow_list(true, Some(Some(2)), true), None, "a row is open");
}

#[test]
fn a_row_shows_its_buttons_the_color_picker_or_read_only() {
    let mut state = MarkersState::new();
    assert_eq!(state.row_header(None, 0), RowHeader::ReadOnly);
    assert_eq!(state.row_header(Some("a"), 0), RowHeader::Editable { ranged: false, open: false });
    assert_eq!(state.row_header(Some("a"), 6000), RowHeader::Editable { ranged: true, open: false });
    state.open("a".to_string());
    assert_eq!(state.row_header(Some("a"), 0), RowHeader::Editable { ranged: false, open: true });
    assert_eq!(state.row_header(Some("b"), 0), RowHeader::Editable { ranged: false, open: false });
    state.toggle_color_picker("b".to_string());
    assert_eq!(state.row_header(Some("b"), 0), RowHeader::ColorPicker);
}

#[test]
fn the_list_says_why_it_has_no_rows() {
    assert_eq!(list_note(false, 0), Some("This file cannot hold markers"));
    assert_eq!(list_note(true, 0), Some("No markers yet — press F2 to add one"));
    assert_eq!(list_note(true, 2), None);
    assert_eq!(shown_name(""), "—");
    assert_eq!(shown_name("Goat"), "Goat");
}
