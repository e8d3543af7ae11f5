//! Dragging a tag chip along the file name panel to reorder the file's tags. The drag is the
//! panel's own state: which tag is dragged (by id, so the list may change meanwhile) and where
//! it would drop. The app maps the cursor to a chip position from the panel's geometry.

use vstd::prelude::*;

verus! {

/// Messages of the chip drag.
#[derive(Debug, Clone, Copy, PartialEq, Eq, Structural)]
pub enum Message {
    /// A chip was picked up at `initial_index`.
    DragStarted { tag_id: u64, initial_index: usize },
    /// The cursor moved while dragging: the chip position under it (`None` outside the panel),
    /// and where the dragged tag stands now among the file's tags (`None` when it is no longer
    /// one of them).
    DragHover { cursor_index: Option<usize>, dragged_index: Option<usize> },
    /// The mouse button was released.
    DragEnded,
}

/// The drag, as a model.
pub struct DragView {
    pub dragging_tag_id: Option<u64>,
    pub drop_target_index: Option<usize>,
}

/// The drag of a chip in the file name panel.
#[derive(Debug, Clone, Copy, Default)]
pub struct FileNamePanelState {
    dragging_tag_id: Option<u64>,
    drop_target_index: Option<usize>,
}

impl View for FileNamePanelState {
    type V = DragView;

    closed spec fn view(&self) -> DragView {
        DragView { dragging_tag_id: self.dragging_tag_id, drop_target_index: self.drop_target_index }
    }
}

/// The smaller of two numbers.
pub open spec fn smaller(a: int, b: int) -> int {
    if a <= b { a } else { b }
}

/// The drag after a message, the file having `tag_count` tags: a new drag starts at its chip
/// (at most the last); a hover targets the position under the cursor, or else keeps the
/// dragged tag where it stands, at most one past the last chip, and ends the drag when the tag
/// is gone; a release ends it.
pub open spec fn drag_after(v: DragView, message: Message, tag_count: usize) -> DragView {
    match message {
        Message::DragStarted { tag_id, initial_index } => DragView {
            dragging_tag_id: Some(tag_id),
            drop_target_index: Some(smaller(initial_index as int, if tag_count == 0 { 0 } else { tag_count - 1 }) as usize),
        },
        Message::DragHover { cursor_index, dragged_index } => {
            let index = match cursor_index {
                Some(i) => Some(i),
                None => dragged_index,
            };
            match index {
                Some(i) => DragView { drop_target_index: Some(smaller(i as int, tag_count as int) as usize), ..v },
                None => DragView { dragging_tag_id: None, drop_target_index: None },
            }
        },
        Message::DragEnded => DragView { dragging_tag_id: None, drop_target_index: None },
    }
}

impl FileNamePanelState {
    /// No drag.
    pub fn new() -> (state: Self)
        ensures
            state@ == (DragView { dragging_tag_id: None, drop_target_index: None }),
    {
        FileNamePanelState { dragging_tag_id: None, drop_target_index: None }
    }

    pub fn is_dragging(&self) -> (dragging: bool)
        ensures
            dragging == self@.dragging_tag_id is Some,
    {
        self.dragging_tag_id.is_some()
    }

    /// The id of the tag being dragged.
    pub fn dragging_tag_id(&self) -> (id: Option<u64>)
        ensures
            id == self@.dragging_tag_id,
    {
        self.dragging_tag_id
    }

    /// Where the dragged chip would drop, among the file's tags.
    pub fn drop_target_index(&self) -> (index: Option<usize>)
        ensures
            index == self@.drop_target_index,
    {
        self.drop_target_index
    }

    /// Handle a drag message; the file has `tag_count` tags.
    pub fn update(&mut self, message: Message, tag_count: usize)
        ensures
            final(self)@ == drag_after(old(self)@, message, tag_count),
    {
        match message {
            Message::DragStarted { tag_id, initial_index } => {
                let last = if tag_count == 0 { 0 } else { tag_count - 1 };
                self.dragging_tag_id = Some(tag_id);
                self.drop_target_index = Some(if initial_index < last { initial_index } else { last });
            },
            Message::DragHover { cursor_index, dragged_index } => {
                let index = match cursor_index {
                    Some(i) => Some(i),
                    None => dragged_index,
                };
                match index {
                    Some(i) => {
                        self.drop_target_index = Some(if i < tag_count { i } else { tag_count });
                    },
                    None => {
                        self.dragging_tag_id = None;
                        self.drop_target_index = None;
                    },
                }
            },
            Message::DragEnded => {
                self.dragging_tag_id = None;
                self.drop_target_index = None;
            },
        }
    }
}

/// While a drag lasts, its drop target is always a chip position of the file, or one past the
/// last: every message keeps it in range.
pub proof fn law_drop_target_stays_in_range(v: DragView, message: Message, tag_count: usize)
    requires
        v.drop_target_index matches Some(i) ==> i <= tag_count,
    ensures
        drag_after(v, message, tag_count).drop_target_index matches Some(i) ==> i <= tag_count,
{
}

/// A release always ends the drag.
pub proof fn law_release_ends_the_drag(v: DragView, tag_count: usize)
    ensures
        drag_after(v, Message::DragEnded, tag_count).dragging_tag_id is None,
        drag_after(v, Message::DragEnded, tag_count).drop_target_index is None,
{
}

} // verus!
