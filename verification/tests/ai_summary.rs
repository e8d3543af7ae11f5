use frename::batch::actions::ai_summary::{
    skipped_line, AiSettings, EstimateState, Job, Message, Options, SummaryEstimate, LABEL,
};

const SETTINGS: AiSettings = AiSettings { model: 1, language: 0 };

#[test]
fn a_new_estimate_replaces_the_old_and_a_stale_answer_is_dropped() {
    let mut options = Options::new();
    options.update(Message::Estimate);
    let (first, _) = options.pending_estimate(SETTINGS).expect("running");
    options.checks_changed();
    options.update(Message::Estimate);
    let (second, _) = options.pending_estimate(SETTINGS).expect("running");
    let ready = SummaryEstimate { videos: 2, ..SummaryEstimate::default() };
    options.update(Message::Estimated(first, ready));
    assert!(options.pending_estimate(SETTINGS).is_some(), "stale answer dropped");
    options.update(Message::Estimated(second, ready));
    assert_eq!(options.estimate(), EstimateState::Ready(ready));

    options.update(Message::SetRedo(true));
    assert_eq!(options.estimate(), EstimateState::NotAsked, "redo counts other videos");
}

#[test]
fn it_does_not_run_without_an_estimate() {
    let options = Options::new();
    assert_eq!(options.operation(SETTINGS, true), None);
}

#[test]
fn it_runs_with_an_estimate_of_videos_and_a_key() {
    let mut options = Options::new();
    options.update(Message::SetRedo(true));
    options.update(Message::Estimate);
    let (request, job) = options.pending_estimate(SETTINGS).unwrap();
    assert_eq!(job, Job { model: 1, language: 0, redo: true });
    options.update(Message::Estimated(request, SummaryEstimate { videos: 3, ..SummaryEstimate::default() }));
    assert_eq!(options.operation(SETTINGS, false), None, "no key");
    assert_eq!(options.operation(SETTINGS, true), Some(Job { model: 1, language: 0, redo: true }));
    options.update(Message::Estimate);
    let (request, _) = options.pending_estimate(SETTINGS).unwrap();
    options.update(Message::Estimated(request, SummaryEstimate::default()));
    assert_eq!(options.operation(SETTINGS, true), None, "nothing to send");
}

#[test]
fn the_estimate_reads_like_a_price() {
    let estimate = SummaryEstimate {
        videos: 12,
        without_subtitles: 3,
        already_summarized: 2,
        input_tokens: 40_000,
        output_tokens: 8_400,
    };
    assert_eq!(
        skipped_line(estimate).as_deref(),
        Some("3 without subtitles and 2 already summarized are skipped.")
    );
    assert_eq!(skipped_line(SummaryEstimate::default()), None);
    assert_eq!(
        skipped_line(SummaryEstimate { already_summarized: 1, ..SummaryEstimate::default() }).as_deref(),
        Some("1 already summarized are skipped.")
    );
    assert_eq!(LABEL, "Summarize subtitles with AI");
}
