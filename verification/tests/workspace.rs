use frename::workspace::{is_blocked, MessageKind};

#[test]
fn batch_mode_drops_edits_of_the_open_file() {
    assert!(is_blocked(MessageKind::TagPanel, true, false));
    assert!(is_blocked(MessageKind::SubmitRename, true, false));
    assert!(!is_blocked(MessageKind::NextFile, true, false));
    assert!(!is_blocked(MessageKind::ToggleChecked, true, false));
}

#[test]
fn a_running_job_locks_the_folder() {
    assert!(is_blocked(MessageKind::NextFile, true, true));
    assert!(is_blocked(MessageKind::OpenFile, false, true));
    assert!(is_blocked(MessageKind::InvertChecks, true, true));
    assert!(is_blocked(MessageKind::Undo, false, true));
    assert!(!is_blocked(MessageKind::Other, true, true));
}

#[test]
fn nothing_is_dropped_outside_batch_mode() {
    for kind in [MessageKind::TagPanel, MessageKind::OpenFile, MessageKind::Other, MessageKind::SetBatchMode] {
        assert!(!is_blocked(kind, false, false));
    }
}

use frename::batch::actions::{CommentStorage, InOutStorage, MetadataStorage, Settings};
use frename::batch::{BatchState, ItemStatus, Message};

fn batch_with(files: &[u64]) -> BatchState {
    let mut batch = BatchState::new(MetadataStorage {
        comment: CommentStorage::InVideo,
        in_out: InOutStorage::InVideo,
    });
    batch.update(Message::SetActive(true));
    batch.update(Message::CheckAll(files.to_vec()));
    batch
}

fn settings() -> Settings {
    Settings { commented_tag_on: true, summary_language: 0 }
}

#[test]
fn batch_mode_does_not_edit_the_open_file() {
    let batch = batch_with(&[1]);
    assert!(is_blocked(MessageKind::TagPanel, batch.is_active(), batch.is_running()));
}

#[test]
fn a_batch_job_locks_the_folder_and_reopens_the_file_when_done() {
    let files = [1, 2];
    let mut batch = batch_with(&files);
    assert!(batch.start(batch.checked_in_order(&files), settings()));
    assert!(batch.is_running());
    assert!(
        is_blocked(MessageKind::SelectFile, batch.is_active(), batch.is_running()),
        "navigation is locked"
    );
    let (first, _) = batch.begin_next().unwrap();
    batch.finish(first, ItemStatus::Skipped);
    let (second, _) = batch.begin_next().unwrap();
    assert!(batch.is_running());
    batch.finish(second, ItemStatus::Skipped);
    assert!(batch.begin_next().is_none());
    assert!(!batch.is_running(), "ended after the last file");
    assert_eq!(batch.progress().map(|p| p.skipped), Some(2));
    assert!(!is_blocked(MessageKind::SelectFile, batch.is_active(), batch.is_running()));
}

#[test]
fn a_cancelled_batch_job_stops_after_the_file_in_work() {
    let files = [1, 2, 3];
    let mut batch = batch_with(&files);
    batch.start(files.to_vec(), settings());
    let (first, _) = batch.begin_next().unwrap();
    batch.update(Message::Cancel);
    batch.finish(first, ItemStatus::Done);
    assert!(batch.begin_next().is_none());
    assert!(!batch.is_running());
    let progress = batch.progress().expect("report");
    assert_eq!((progress.finished, progress.total), (1, 3));
}
