use frename::folder::{escape_action, EscapeAction};
use frename::batch::ItemStatus;
use frename::folder::{
    all_filtered_icon, check_outcome, checked_label, first_line, list_placeholder, row_clicks,
    search_query_after_key, spinner, FilterChange, FilterItem, FilterKind, GlobalSearchKey,
    ListFilters, Outcome, RowClicks,
};

fn filters() -> ListFilters {
    ListFilters {
        untagged_only: true,
        untagged_count: 4,
        subtitled_only: false,
        subtitled_count: 12,
        commented_only: true,
        commented_count: 0,
    }
}

#[test]
fn the_dropdown_lists_the_three_filters_in_order() {
    let items = filters().items();
    assert_eq!(
        items,
        [
            FilterItem { kind: FilterKind::Untagged, active: true, count: 4 },
            FilterItem { kind: FilterKind::Subtitles, active: false, count: 12 },
            FilterItem { kind: FilterKind::Comments, active: true, count: 0 },
        ]
    );
}

#[test]
fn picking_a_row_turns_its_filter_over() {
    let items = filters().items();
    assert_eq!(items[0].pick(), FilterChange::SetUntaggedOnly(false));
    assert_eq!(items[1].pick(), FilterChange::SetSubtitledOnly(true));
    assert_eq!(items[2].pick(), FilterChange::SetCommentedOnly(false));
}

#[test]
fn the_button_counts_the_filters_on() {
    assert_eq!(filters().active_count(), 2);
    assert_eq!(filters().placeholder(), "folder-controls-filter-active");
    assert_eq!(ListFilters::default().active_count(), 0);
    assert_eq!(ListFilters::default().placeholder(), "folder-controls-filter");
}

#[test]
fn a_row_shows_its_mark_name_and_count() {
    let items = filters().items();
    assert_eq!(items[0].text("Untagged"), "✓ Untagged  4");
    assert_eq!(items[1].text("Subtitles"), "    Subtitles  12");
}

#[test]
fn filter_names_are_message_ids() {
    assert_eq!(FilterKind::Untagged.label(), "folder-controls-filter-untagged");
    assert_eq!(FilterKind::Subtitles.label(), "folder-controls-filter-subtitles");
    assert_eq!(FilterKind::Comments.label(), "folder-controls-filter-comments");
    assert_eq!(FilterKind::Subtitles.set(false), FilterChange::SetSubtitledOnly(false));
}

#[test]
fn a_key_typed_anywhere_goes_into_the_search() {
    assert_eq!(search_query_after_key("goa", GlobalSearchKey::Char('t')), "goat");
    assert_eq!(search_query_after_key("", GlobalSearchKey::Char('ä')), "ä");
    assert_eq!(search_query_after_key("goat", GlobalSearchKey::Backspace), "goa");
    assert_eq!(search_query_after_key("gä", GlobalSearchKey::Delete), "g");
    assert_eq!(search_query_after_key("", GlobalSearchKey::Backspace), "");
}

#[test]
fn the_list_shows_an_icon_when_there_are_no_rows() {
    assert_eq!(list_placeholder(true, true, false), Some("⏳"));
    assert_eq!(list_placeholder(false, false, true), Some("📂"));
    assert_eq!(list_placeholder(false, true, true), Some("📭"));
    assert_eq!(list_placeholder(false, true, false), None);
    assert_eq!(all_filtered_icon("  "), "✓");
    assert_eq!(all_filtered_icon(" goat"), "🔍");
}

#[test]
fn clicks_select_and_double_clicks_rename_unless_locked() {
    assert_eq!(row_clicks(false, false), RowClicks { select: true, rename: true });
    assert_eq!(row_clicks(false, true), RowClicks { select: true, rename: false });
    assert_eq!(row_clicks(true, true), RowClicks { select: false, rename: false });
}

#[test]
fn a_finished_file_shows_its_outcome_in_its_check_box() {
    assert_eq!(check_outcome(Some(ItemStatus::Done)), Some((Outcome::Good, None, "Changed")));
    assert_eq!(check_outcome(Some(ItemStatus::Skipped)), Some((Outcome::Good, None, "Nothing to change")));
    assert_eq!(
        check_outcome(Some(ItemStatus::Failed)),
        Some((Outcome::Failed, Some('✕'), "Failed, see the log"))
    );
    assert_eq!(check_outcome(Some(ItemStatus::Running)), None);
    assert_eq!(check_outcome(Some(ItemStatus::Pending)), None);
    assert_eq!(check_outcome(None), None);
}

#[test]
fn the_spinner_turns() {
    assert_eq!([spinner(0), spinner(1), spinner(2), spinner(3), spinner(4)], ["◐", "◓", "◑", "◒", "◐"]);
}

#[test]
fn the_comment_line_is_the_first_line() {
    assert_eq!(first_line("Goat walk\nsecond"), "Goat walk");
    assert_eq!(first_line("Goat walk\r\nsecond"), "Goat walk");
    assert_eq!(first_line("only"), "only");
    assert_eq!(first_line(""), "");
    assert_eq!(first_line("\nsecond"), "");
    for comment in ["a\r", "a\r\n", "\r\n", "x\ny\r\n", "ä\u{2028}b\nc"] {
        assert_eq!(first_line(comment), comment.lines().next().unwrap_or_default(), "{comment:?}");
    }
    assert_eq!(checked_label(3), "3 checked");
}

#[test]
fn escape_closes_the_rename_then_full_screen_then_clears_the_searches() {
    assert_eq!(escape_action(true, true), EscapeAction::CloseRename);
    assert_eq!(escape_action(true, false), EscapeAction::CloseRename);
    assert_eq!(escape_action(false, true), EscapeAction::LeaveFullscreen);
    assert_eq!(escape_action(false, false), EscapeAction::ClearSearches);
}
