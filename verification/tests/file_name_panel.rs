use frename::file_name_panel::{FileNamePanelState, Message};

#[test]
fn a_drag_starts_on_its_chip_and_follows_the_cursor() {
    let mut drag = FileNamePanelState::new();
    assert!(!drag.is_dragging());
    drag.update(Message::DragStarted { tag_id: 7, initial_index: 9 }, 3);
    assert_eq!(drag.dragging_tag_id(), Some(7));
    assert_eq!(drag.drop_target_index(), Some(2), "at most the last chip");
    drag.update(Message::DragHover { cursor_index: Some(5), dragged_index: Some(1) }, 3);
    assert_eq!(drag.drop_target_index(), Some(3), "at most one past the last");
    drag.update(Message::DragHover { cursor_index: None, dragged_index: Some(1) }, 3);
    assert_eq!(drag.drop_target_index(), Some(1), "outside the panel: where the tag stands");
    drag.update(Message::DragEnded, 3);
    assert!(!drag.is_dragging());
    assert_eq!(drag.drop_target_index(), None);
}

#[test]
fn a_tag_that_left_the_name_ends_the_drag() {
    let mut drag = FileNamePanelState::new();
    drag.update(Message::DragStarted { tag_id: 7, initial_index: 0 }, 2);
    drag.update(Message::DragHover { cursor_index: None, dragged_index: None }, 1);
    assert_eq!(drag.dragging_tag_id(), None);
    assert_eq!(drag.drop_target_index(), None);
}

#[test]
fn a_drag_on_a_name_without_tags_targets_the_start() {
    let mut drag = FileNamePanelState::new();
    drag.update(Message::DragStarted { tag_id: 1, initial_index: 4 }, 0);
    assert_eq!(drag.drop_target_index(), Some(0));
}
