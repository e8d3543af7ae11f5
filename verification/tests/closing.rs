use frename::closing::{CloseAction, CloseState};

#[test]
fn an_idle_window_closes_at_once() {
    let mut close = CloseState::new();
    assert_eq!(close.close_requested(1, false, false), CloseAction::CloseWindow(1));
    assert!(!close.is_pending());
}

#[test]
fn a_running_job_is_stopped_before_the_window_closes() {
    let mut close = CloseState::new();
    assert_eq!(close.close_requested(1, true, false), CloseAction::CancelBatch);
    assert!(close.is_pending());
    assert_eq!(close.batch_finished(true), CloseAction::UnloadMedia, "the reopened file is unloaded");
    assert_eq!(close.media_unloaded(), CloseAction::CloseWindow(1));
    assert_eq!(close.media_unloaded(), CloseAction::Nothing, "closed once");
}

#[test]
fn an_open_video_is_unloaded_before_the_window_closes() {
    let mut close = CloseState::new();
    assert_eq!(close.close_requested(7, false, true), CloseAction::UnloadMedia);
    assert_eq!(close.media_unloaded(), CloseAction::CloseWindow(7));
}

#[test]
fn without_a_close_waiting_nothing_happens() {
    let mut close = CloseState::default();
    assert_eq!(close.batch_finished(true), CloseAction::Nothing);
    assert_eq!(close.media_unloaded(), CloseAction::Nothing);
    let mut close = CloseState::new();
    close.close_requested(2, true, false);
    assert_eq!(close.batch_finished(false), CloseAction::CloseWindow(2));
}

#[test]
fn closing_at_once_keeps_a_close_that_was_waiting() {
    let mut close = CloseState::new();
    assert_eq!(close.close_requested(3, false, true), CloseAction::UnloadMedia);
    assert_eq!(close.close_requested(4, false, false), CloseAction::CloseWindow(4));
    assert!(close.is_pending());
    assert_eq!(close.media_unloaded(), CloseAction::CloseWindow(3));
}
