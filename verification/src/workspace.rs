//! Which messages of the folder workspace are dropped while batch mode is on or a batch job
//! runs. Batch mode shows batch actions in place of the open file, so what would edit that file
//! is off; a running job also locks the folder: no file may open or change while the job
//! writes its files.

use vstd::prelude::*;

verus! {

/// The workspace messages that edit the open file or change which files are open or checked,
/// by name; every other message is `Other`.
#[derive(Debug, Clone, Copy, PartialEq, Eq, Structural)]
pub enum MessageKind {
    TagPanel,
    FileNamePanel,
    SyncPanel,
    CommentAction,
    RemoveTag,
    SaveSelectedTag,
    CopyTags,
    PasteTags,
    Undo,
    Redo,
    SetSegmentStart,
    SetSegmentEnd,
    FocusSearchBarAndKey,
    ScreenshotTaken,
    StartRename,
    RenameInput,
    SubmitRename,
    OpenFile,
    LoadLastSession,
    ScanFolder,
    OpenFilePicker,
    PrepareBatch,
    ToggleMediaFullscreen,
    SelectFile,
    PreviousFile,
    NextFile,
    OpenFolder,
    SetBatchMode,
    ToggleChecked,
    ToggleAllChecked,
    InvertChecks,
    Other,
}

/// Whether a message of this kind edits the open file: its tags, name, comment, segment or
/// markers, or the search that types into its tag list.
pub open spec fn edits_open_file(kind: MessageKind) -> bool {
    match kind {
        MessageKind::TagPanel | MessageKind::FileNamePanel | MessageKind::SyncPanel
        | MessageKind::CommentAction | MessageKind::RemoveTag | MessageKind::SaveSelectedTag
        | MessageKind::CopyTags | MessageKind::PasteTags | MessageKind::Undo | MessageKind::Redo
        | MessageKind::SetSegmentStart | MessageKind::SetSegmentEnd
        | MessageKind::FocusSearchBarAndKey | MessageKind::ScreenshotTaken
        | MessageKind::StartRename | MessageKind::RenameInput | MessageKind::SubmitRename => true,
        _ => false,
    }
}

/// Whether a message of this kind opens another file or folder, or changes the checks.
pub open spec fn changes_files(kind: MessageKind) -> bool {
    match kind {
        MessageKind::OpenFile | MessageKind::LoadLastSession | MessageKind::ScanFolder
        | MessageKind::OpenFilePicker | MessageKind::PrepareBatch
        | MessageKind::ToggleMediaFullscreen | MessageKind::SelectFile
        | MessageKind::PreviousFile | MessageKind::NextFile | MessageKind::OpenFolder
        | MessageKind::SetBatchMode | MessageKind::ToggleChecked | MessageKind::ToggleAllChecked
        | MessageKind::InvertChecks => true,
        _ => false,
    }
}

/// Whether a message of this kind is dropped: an edit of the open file in batch mode, and an
/// edit or a change of files while a job runs.
pub open spec fn blocked(kind: MessageKind, batch_active: bool, batch_running: bool) -> bool {
    (edits_open_file(kind) && batch_active)
        || (batch_running && (edits_open_file(kind) || changes_files(kind)))
}

/// Whether a message of this kind edits the open file, computed.
pub fn is_edit(kind: MessageKind) -> (edit: bool)
    ensures
        edit == edits_open_file(kind),
{
    match kind {
        MessageKind::TagPanel | MessageKind::FileNamePanel | MessageKind::SyncPanel
        | MessageKind::CommentAction | MessageKind::RemoveTag | MessageKind::SaveSelectedTag
        | MessageKind::CopyTags | MessageKind::PasteTags | MessageKind::Undo | MessageKind::Redo
        | MessageKind::SetSegmentStart | MessageKind::SetSegmentEnd
        | MessageKind::FocusSearchBarAndKey | MessageKind::ScreenshotTaken
        | MessageKind::StartRename | MessageKind::RenameInput | MessageKind::SubmitRename => true,
        _ => false,
    }
}

/// Whether a message of this kind opens or checks files, computed.
pub fn is_file_change(kind: MessageKind) -> (change: bool)
    ensures
        change == changes_files(kind),
{
    match kind {
        MessageKind::OpenFile | MessageKind::LoadLastSession | MessageKind::ScanFolder
        | MessageKind::OpenFilePicker | MessageKind::PrepareBatch
        | MessageKind::ToggleMediaFullscreen | MessageKind::SelectFile
        | MessageKind::PreviousFile | MessageKind::NextFile | MessageKind::OpenFolder
        | MessageKind::SetBatchMode | MessageKind::ToggleChecked | MessageKind::ToggleAllChecked
        | MessageKind::InvertChecks => true,
        _ => false,
    }
}

/// Messages to drop now, with batch mode on (`batch_active`) or a job running
/// (`batch_running`).
pub fn is_blocked(kind: MessageKind, batch_active: bool, batch_running: bool) -> (drop: bool)
    ensures
        drop == blocked(kind, batch_active, batch_running),
{
    let edits = is_edit(kind);
    if edits && batch_active {
        return true;
    }
    batch_running && (edits || is_file_change(kind))
}

/// While a job runs, no message that opens, checks or edits a file gets through.
pub proof fn law_a_running_job_locks_the_folder(kind: MessageKind, batch_active: bool)
    requires
        edits_open_file(kind) || changes_files(kind),
    ensures
        blocked(kind, batch_active, true),
{
}

/// Out of batch mode and with no job running, nothing is dropped.
pub proof fn law_nothing_is_dropped_outside_batch_mode(kind: MessageKind)
    ensures
        !blocked(kind, false, false),
{
}

/// Batch mode without a job still lets files be opened and checked; only edits of the open
/// file are dropped.
pub proof fn law_batch_mode_drops_only_edits(kind: MessageKind)
    ensures
        blocked(kind, true, false) == edits_open_file(kind),
{
}

/// A message that neither edits nor changes files is never dropped.
pub proof fn law_other_messages_pass(batch_active: bool, batch_running: bool)
    ensures
        !blocked(MessageKind::Other, batch_active, batch_running),
{
}

} // verus!
