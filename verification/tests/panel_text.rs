use frename::batch::panel_text::{cancel_button, checked_heading, progress_count, summary_line};
use frename::batch::Progress;

fn progress(total: usize, finished: usize, cancelled: bool) -> Progress {
    Progress { total, finished, done: finished, skipped: 0, failed: 0, running: false, cancelled }
}

#[test]
fn the_heading_counts_the_checked_files() {
    assert_eq!(checked_heading(1), "on 1 file checked");
    assert_eq!(checked_heading(12), "on 12 files checked");
}

#[test]
fn a_running_job_shows_files_finished_of_all() {
    assert_eq!(progress_count(progress(10, 3, false)), "3 / 10");
}

#[test]
fn an_ended_job_says_whether_it_was_stopped() {
    assert_eq!(summary_line(progress(5, 2, true)), "Stopped after 2 of 5 files.");
    assert_eq!(summary_line(progress(5, 5, false)), "Finished 5 files.");
    assert_eq!(summary_line(progress(1, 1, false)), "Finished 1 file.");
}

#[test]
fn cancel_turns_into_stopping() {
    assert_eq!(cancel_button(progress(5, 2, false)), ("Cancel", true));
    assert_eq!(cancel_button(progress(5, 2, true)), ("Stopping…", false));
}
