use frename::batch::actions::{move_status, CommentStorage, InOutStorage, MetadataStorage, MoveOutcome, Settings};
use frename::batch::{Action, BatchState, ItemStatus, Message, Operation};

fn ids(n: usize) -> Vec<u64> {
    (0..n as u64).map(|i| 100 + i).collect()
}

fn settings() -> Settings {
    Settings { commented_tag_on: true, summary_language: 0 }
}

fn state() -> BatchState {
    let mut state = BatchState::new(MetadataStorage {
        comment: CommentStorage::InVideo,
        in_out: InOutStorage::InVideo,
    });
    state.update(Message::Prepare {
        operation: Operation::MoveComments(CommentStorage::InVideo),
        files: Vec::new(),
    });
    state.update(Message::SetActive(false));
    state
}

#[test]
fn checks_toggle_add_and_invert() {
    let files = ids(3);
    let mut batch = state();
    batch.update(Message::Toggle(files[0]));
    assert!(batch.is_checked(files[0]));
    batch.update(Message::Invert(files.clone()));
    assert!(!batch.is_checked(files[0]));
    assert_eq!(batch.checked_count(), 2);
    batch.update(Message::CheckAll(files.clone()));
    assert_eq!(batch.checked_count(), 3);
    batch.update(Message::CheckNone);
    assert_eq!(batch.checked_count(), 0);
}

#[test]
fn a_job_runs_its_files_in_order_and_stops_after_a_cancel() {
    let files = ids(3);
    let mut batch = state();
    assert!(batch.start(files.clone(), settings()));
    assert!(!batch.start(files.clone(), settings()), "one job at a time");

    let (first, operation) = batch.begin_next().expect("first file");
    assert_eq!(
        (first, operation),
        (files[0], Operation::MoveComments(CommentStorage::InVideo))
    );
    assert_eq!(batch.current(), Some(files[0]));
    batch.finish(first, ItemStatus::Done);

    batch.update(Message::Toggle(files[0]));
    assert!(!batch.is_checked(files[0]), "checks are locked while running");

    batch.update(Message::Cancel);
    assert!(batch.begin_next().is_none(), "cancelled before the second file");
    assert!(!batch.is_running());
    let progress = batch.progress().expect("report");
    assert_eq!((progress.finished, progress.done, progress.total), (1, 1, 3));
    assert_eq!(batch.status(files[1]), Some(ItemStatus::Pending));

    batch.update(Message::CloseReport);
    assert!(batch.progress().is_none());
}

#[test]
fn a_job_ends_after_its_last_file() {
    let files = ids(1);
    let mut batch = state();
    batch.start(files.clone(), settings());
    let (id, _) = batch.begin_next().expect("the file");
    batch.finish(id, ItemStatus::Failed);
    assert!(batch.begin_next().is_none());
    assert_eq!(batch.failed(), files);
}

#[test]
fn unchecking_a_finished_file_shows_its_check_box_again_and_keeps_the_report() {
    let files = ids(2);
    let mut batch = state();
    batch.update(Message::CheckAll(files.clone()));
    batch.start(files.clone(), settings());
    for _ in 0..2 {
        let (id, _) = batch.begin_next().expect("a file");
        batch.finish(id, ItemStatus::Done);
    }
    assert!(batch.begin_next().is_none());

    batch.update(Message::Toggle(files[0]));
    assert!(!batch.is_checked(files[0]));
    assert_eq!(batch.status(files[0]), None, "check box shown again");
    assert_eq!(batch.status(files[1]), Some(ItemStatus::Done));
    assert_eq!(batch.progress().map(|p| p.done), Some(2), "the report still counts it");
}

#[test]
fn every_action_runs_and_none_runs_without_files() {
    let mut batch = state();
    assert!(!batch.start(Vec::new(), settings()), "nothing checked");
    for action in Action::ALL {
        batch.update(Message::SelectAction(action));
        assert_eq!(batch.operation(settings()).map(|op| op.action()), Some(action));
    }
    batch.update(Message::SelectAction(Action::FixTags));
    assert!(batch.start(ids(2), settings()));
}

#[test]
fn tagging_commented_videos_runs_with_the_default_tag() {
    let mut batch = state();
    batch.update(Message::SelectAction(Action::TagCommented));
    assert_eq!(batch.operation(settings()), Some(Operation::TagCommented));
    assert!(batch.start(ids(1), settings()));
}

#[test]
fn prepare_checks_the_files_and_sets_up_the_action() {
    let files = ids(2);
    let mut batch = state();
    batch.update(Message::Prepare {
        operation: Operation::MoveInOut(InOutStorage::InVideo),
        files: files.clone(),
    });
    assert!(batch.is_active());
    assert_eq!(
        batch.operation(settings()),
        Some(Operation::MoveInOut(InOutStorage::InVideo))
    );
    assert_eq!(batch.checked_count(), 2);
}

#[test]
fn tagging_commented_videos_needs_the_commented_tag() {
    let mut batch = state();
    batch.update(Message::SelectAction(Action::TagCommented));
    let off = Settings { commented_tag_on: false, summary_language: 0 };
    assert_eq!(batch.operation(off), None);
    assert!(!batch.start(ids(1), off));
}

#[test]
fn checks_do_not_change_while_a_job_runs() {
    let files = ids(2);
    let mut batch = state();
    batch.update(Message::CheckAll(files.clone()));
    assert!(batch.start(files.clone(), settings()));
    batch.update(Message::CheckNone);
    assert_eq!(batch.checked_count(), 2);
    batch.update(Message::Invert(files.clone()));
    assert_eq!(batch.checked_count(), 2);
}

#[test]
fn toggling_twice_restores_the_check() {
    let files = ids(2);
    let mut batch = state();
    batch.update(Message::Toggle(files[1]));
    batch.update(Message::Toggle(files[1]));
    assert!(!batch.is_checked(files[1]));
    assert_eq!(batch.checked_count(), 0);
}

#[test]
fn inverting_twice_restores_the_checks() {
    let files = ids(3);
    let mut batch = state();
    batch.update(Message::Toggle(files[2]));
    batch.update(Message::Invert(files.clone()));
    batch.update(Message::Invert(files.clone()));
    assert!(batch.is_checked(files[2]));
    assert_eq!(batch.checked_count(), 1);
}

#[test]
fn the_progress_counts_each_outcome() {
    let files = ids(3);
    let mut batch = state();
    batch.start(files.clone(), settings());
    let (a, _) = batch.begin_next().unwrap();
    batch.finish(a, ItemStatus::Done);
    let (b, _) = batch.begin_next().unwrap();
    batch.finish(b, ItemStatus::Skipped);
    let (c, _) = batch.begin_next().unwrap();
    assert_eq!(batch.current(), Some(c));
    batch.finish(c, ItemStatus::Failed);
    assert!(batch.begin_next().is_none());
    let p = batch.progress().unwrap();
    assert_eq!(
        (p.total, p.finished, p.done, p.skipped, p.failed, p.running, p.cancelled),
        (3, 3, 1, 1, 1, false, false)
    );
    assert_eq!(batch.failed(), vec![c]);
}

#[test]
fn the_header_box_checks_all_or_clears_when_all_are_checked() {
    let files = ids(2);
    let mut batch = state();
    let message = batch.toggle_all(files.clone());
    assert!(matches!(&message, Message::CheckAll(listed) if *listed == files));
    batch.update(message);
    assert_eq!(batch.checked_count(), 2);
    let message = batch.toggle_all(files.clone());
    assert!(matches!(message, Message::CheckNone));
    batch.update(message);
    assert_eq!(batch.checked_count(), 0);
    assert!(matches!(batch.toggle_all(Vec::new()), Message::CheckAll(listed) if listed.is_empty()));
}

#[test]
fn a_job_runs_over_the_checked_files_in_folder_order() {
    let mut batch = state();
    batch.update(Message::CheckAll(vec![103, 101]));
    assert_eq!(batch.checked_in_order(&[100, 101, 102, 103]), vec![101, 103]);
    assert_eq!(batch.checked_in_order(&[]), Vec::<u64>::new());
}

#[test]
fn an_actions_outcome_is_the_files_status() {
    assert_eq!(move_status(MoveOutcome::NothingToMove), ItemStatus::Skipped);
    assert_eq!(move_status(MoveOutcome::Moved), ItemStatus::Done);
    assert_eq!(move_status(MoveOutcome::Failed), ItemStatus::Failed);
}

#[test]
fn each_file_starts_after_the_last_one_finished_and_the_counts_follow() {
    let files = ids(4);
    let mut batch = state();
    assert!(batch.start(files.clone(), settings()));
    let outcomes = [ItemStatus::Done, ItemStatus::Skipped, ItemStatus::Failed];
    for (k, outcome) in outcomes.iter().enumerate() {
        let (id, _) = batch.begin_next().expect("a file");
        assert_eq!(id, files[k]);
        assert_eq!(batch.current(), Some(files[k]));
        assert_eq!(batch.status(files[k]), Some(ItemStatus::Running));
        batch.finish(id, *outcome);
        assert_eq!(batch.status(files[k]), Some(*outcome));
    }
    let progress = batch.progress().expect("a job");
    assert_eq!(
        (progress.total, progress.finished, progress.done, progress.skipped, progress.failed, progress.running),
        (4, 3, 1, 1, 1, true)
    );
    batch.update(Message::Cancel);
    assert!(batch.begin_next().is_none());
    assert!(!batch.is_running());
    assert_eq!(batch.status(files[3]), Some(ItemStatus::Pending));
    let progress = batch.progress().expect("the report");
    assert_eq!((progress.finished, progress.running, progress.cancelled), (3, false, true));
}
