use frename::batch::actions::describe_ai::{
    end_record, request_record, RequestErrorKind, RequestOutcome, TokenUsage, NO_API_KEY, STOPPED_NO_KEY, STOPPED_OFFLINE,
    UNREADABLE,
};
use frename::batch::ItemStatus;
use frename::batch::actions::markers_comment::{self, Direction};
use frename::batch::actions::describe_ai::{
    describe_next, duration_text, minutes_text, videos, CheckedFile, DescribeEnd, DescribeEvent, DescribeNext, DescribeStep,
    KeyState, Message, Options, Plan, Probe, Sampled, MAX_DURATION_NS,
};

const SECOND_NS: u64 = 1_000_000_000;

fn file(id: u64, name: &str, described: bool) -> CheckedFile {
    CheckedFile {
        id,
        path: format!("C:/clips/{name}"),
        is_video: !name.ends_with(".jpg"),
        comment_loading: false,
        has_ai_block: described,
        has_subtitles: false,
    }
}

fn probe(duration_s: Option<u64>) -> Probe {
    Probe {
        duration_ns: duration_s.map(|s| s * SECOND_NS),
        subtitle_chars: 0,
    }
}

fn plan_with(described: usize, too_long: usize, not_videos: usize, unreadable: usize) -> Plan {
    Plan {
        videos: 0,
        described,
        too_long,
        not_videos,
        unreadable,
        no_subtitles: 0,
        estimating: false,
        checked_videos: 0,
        probed: 0,
        sent: Vec::new(),
    }
}

#[test]
fn the_plan_sends_only_readable_short_undescribed_videos() {
    let files = vec![
        file(1, "a.mp4", false),
        file(2, "b.mp4", true),
        file(3, "c.mp4", false),
        file(4, "d.mp4", false),
        file(5, "e.jpg", false),
    ];
    let mut options = Options::new();
    assert_eq!(options.missing_probes(&files).len(), 4);
    assert!(options.missing_probes(&files).is_empty(), "asked once");
    assert!(options.plan(&files).estimating);

    options.update(Message::Probed(vec![
        (files[0].id, probe(Some(60))),
        (files[1].id, probe(Some(60))),
        (files[2].id, probe(Some(3600))),
        (files[3].id, probe(None)),
    ]));
    let plan = options.plan(&files);
    assert!(!plan.estimating);
    assert_eq!(
        (plan.videos, plan.described, plan.too_long, plan.unreadable, plan.not_videos),
        (1, 1, 1, 1, 1)
    );
    assert_eq!(
        plan.skipped_line().as_deref(),
        Some("Skipped: 1 already described, 1 over 30 min, 1 photo, 1 unreadable.")
    );
    assert_eq!(plan.no_subtitles, 1);

    assert_eq!(options.files_to_send(&files), vec![files[0].id]);
    options.update(Message::SetRedo(true));
    assert_eq!(options.plan(&files).videos, 2, "redo sends described ones");
    assert_eq!(options.files_to_send(&files).len(), 2);
}

#[test]
fn the_run_button_waits_for_the_estimate_and_the_key() {
    let files = vec![file(1, "a.mp4", false)];
    let mut options = Options::new();
    options.update(Message::Probed(vec![(files[0].id, probe(Some(10)))]));
    assert_eq!(
        options.run_button(&files),
        ("Describe 1 video".to_string(), false),
        "key not read yet"
    );
    options.update(Message::KeyState(KeyState::Missing));
    assert!(!options.run_button(&files).1);
    options.update(Message::KeyState(KeyState::Saved));
    assert!(options.run_button(&files).1);
}

#[test]
fn nothing_skipped_gives_no_skipped_line() {
    assert_eq!(plan_with(0, 0, 0, 0).skipped_line(), None);
}

#[test]
fn the_skipped_line_names_only_what_is_skipped() {
    assert_eq!(
        plan_with(0, 0, 200, 0).skipped_line().as_deref(),
        Some("Skipped: 200 photos.")
    );
    assert_eq!(
        plan_with(3, 1, 0, 2).skipped_line().as_deref(),
        Some("Skipped: 3 already described, 1 over 30 min, 2 unreadable.")
    );
}

#[test]
fn a_clip_of_exactly_thirty_minutes_is_sent() {
    let files = vec![file(1, "a.mp4", false), file(2, "b.mp4", false)];
    let mut options = Options::new();
    options.update(Message::Probed(vec![
        (1, Probe { duration_ns: Some(MAX_DURATION_NS), subtitle_chars: 5 }),
        (2, Probe { duration_ns: Some(MAX_DURATION_NS + 1), subtitle_chars: 0 }),
    ]));
    let plan = options.plan(&files);
    assert_eq!((plan.videos, plan.too_long), (1, 1));
    assert_eq!(plan.sent, vec![(MAX_DURATION_NS, 5)]);
}

#[test]
fn a_later_length_replaces_an_earlier_one() {
    let files = vec![file(1, "a.mp4", false)];
    let mut options = Options::new();
    options.update(Message::Probed(vec![(1, probe(None)), (1, probe(Some(5)))]));
    let plan = options.plan(&files);
    assert_eq!((plan.videos, plan.unreadable), (1, 0));
}

#[test]
fn a_comment_still_loading_keeps_the_plan_estimating() {
    let mut loading = file(1, "a.mp4", false);
    loading.comment_loading = true;
    let files = vec![loading];
    let mut options = Options::new();
    options.update(Message::Probed(vec![(1, probe(Some(5)))]));
    options.update(Message::KeyState(KeyState::Saved));
    assert!(options.plan(&files).estimating);
    assert!(!options.run_button(&files).1);
}

#[test]
fn a_new_folder_forgets_the_lengths() {
    let files = vec![file(1, "a.mp4", false)];
    let mut options = Options::new();
    assert_eq!(options.missing_probes(&files), vec![(1, "C:/clips/a.mp4".to_string())]);
    options.update(Message::Probed(vec![(1, probe(Some(5)))]));
    options.reset_files();
    assert!(options.plan(&files).estimating);
    assert_eq!(options.missing_probes(&files).len(), 1);
}

#[test]
fn counted_videos_read_naturally() {
    assert_eq!(videos(1), "1 video");
    assert_eq!(videos(0), "0 videos");
    assert_eq!(videos(12), "12 videos");
}

#[test]
fn a_photo_is_left_alone() {
    assert_eq!(
        describe_next(false, DescribeEvent::Started { is_video: false }),
        DescribeNext::End(DescribeEnd::Skipped)
    );
}

#[test]
fn describing_a_video_goes_step_by_step() {
    let step = |event| describe_next(false, event);
    assert_eq!(step(DescribeEvent::Started { is_video: true }), DescribeNext::Step(DescribeStep::ReadComment));
    assert_eq!(step(DescribeEvent::CommentRead { has_ai_block: false }), DescribeNext::Step(DescribeStep::ReadKey));
    assert_eq!(step(DescribeEvent::KeyRead { found: true }), DescribeNext::Step(DescribeStep::OpenClip));
    assert_eq!(
        step(DescribeEvent::ClipOpened { duration_ns: Some(60 * SECOND_NS) }),
        DescribeNext::Step(DescribeStep::SampleFrames)
    );
    assert_eq!(
        step(DescribeEvent::FramesSampled(Sampled::Frames(30))),
        DescribeNext::Step(DescribeStep::SendRequest)
    );
}

#[test]
fn describing_stops_early_for_a_reason() {
    assert_eq!(
        describe_next(false, DescribeEvent::CommentRead { has_ai_block: true }),
        DescribeNext::End(DescribeEnd::Skipped)
    );
    assert_eq!(
        describe_next(true, DescribeEvent::CommentRead { has_ai_block: true }),
        DescribeNext::Step(DescribeStep::ReadKey),
        "redo"
    );
    assert_eq!(describe_next(false, DescribeEvent::KeyRead { found: false }), DescribeNext::End(DescribeEnd::NoKey));
    assert_eq!(
        describe_next(false, DescribeEvent::ClipOpened { duration_ns: None }),
        DescribeNext::End(DescribeEnd::Unreadable)
    );
    assert_eq!(
        describe_next(false, DescribeEvent::ClipOpened { duration_ns: Some(MAX_DURATION_NS + 1) }),
        DescribeNext::End(DescribeEnd::Skipped)
    );
    assert_eq!(
        describe_next(false, DescribeEvent::FramesSampled(Sampled::Frames(0))),
        DescribeNext::End(DescribeEnd::Unreadable)
    );
    assert_eq!(
        describe_next(false, DescribeEvent::FramesSampled(Sampled::Cancelled)),
        DescribeNext::End(DescribeEnd::NotReached)
    );
    assert_eq!(
        describe_next(false, DescribeEvent::FramesSampled(Sampled::Failed)),
        DescribeNext::End(DescribeEnd::Unreadable)
    );
}

#[test]
fn markers_and_comment_lines_go_one_way_at_a_time() {
    let mut options = markers_comment::Options::default();
    assert_eq!(options.operation(), Direction::CommentToMarkers);
    options.update(markers_comment::Message::SetDirection(Direction::MarkersToComment));
    assert_eq!(options.operation(), Direction::MarkersToComment);
    assert_eq!(markers_comment::LABEL, "Markers ⇄ comment");
}

#[test]
fn minutes_read_short() {
    let round = |seconds: f64| (seconds / 60.0).round() as u64;
    assert_eq!(minutes_text(round(20.0), true), "< 1 min");
    assert_eq!(minutes_text(round(38.0 * 60.0), true), "38 min");
    assert_eq!(minutes_text(0, false), "0 min");
    assert_eq!(duration_text(round(20.0)), "under a minute");
    assert_eq!(duration_text(round(25.0 * 60.0)), "25 min");
    assert_eq!(duration_text(round(130.0 * 60.0)), "2 h 10 min");
    assert_eq!(duration_text(120), "2 h");
}

#[test]
fn each_early_ending_is_recorded_and_only_a_missing_key_stops_the_job() {
    let skipped = end_record(DescribeEnd::Skipped);
    assert_eq!((skipped.status, skipped.reason, skipped.stop_job), (ItemStatus::Skipped, None, None));
    let pending = end_record(DescribeEnd::NotReached);
    assert_eq!((pending.status, pending.reason, pending.stop_job), (ItemStatus::Pending, None, None));
    let no_key = end_record(DescribeEnd::NoKey);
    assert_eq!(no_key.status, ItemStatus::Failed);
    assert_eq!(no_key.reason.as_deref(), Some(NO_API_KEY));
    assert_eq!(no_key.stop_job.as_deref(), Some(STOPPED_NO_KEY));
    assert_eq!(no_key.stop_job.as_deref(), Some("Stopped: no Anthropic API key. Set one in Settings."));
    let unreadable = end_record(DescribeEnd::Unreadable);
    assert_eq!(unreadable.status, ItemStatus::Failed);
    assert_eq!(unreadable.reason.as_deref(), Some(UNREADABLE));
    assert_eq!(unreadable.reason.as_deref(), Some("Video could not be read"));
    assert!(unreadable.stop_job.is_none());
}

#[test]
fn what_follows_the_request_is_recorded() {
    let usage = TokenUsage { input_tokens: 1_200, output_tokens: 80 };
    let done = request_record(RequestOutcome::Described(usage));
    assert_eq!((done.status, done.usage, done.reason.clone()), (ItemStatus::Done, Some(usage), None));
    let cancelled = request_record(RequestOutcome::Cancelled);
    assert_eq!((cancelled.status, cancelled.usage), (ItemStatus::Pending, None));
    let rejected = request_record(RequestOutcome::AnswerRejected { usage, reason: "no summary".to_string() });
    assert_eq!(rejected.status, ItemStatus::Failed);
    assert_eq!(rejected.reason.as_deref(), Some("no summary"));
    assert_eq!(rejected.usage, Some(usage), "the tokens were billed");
    let offline = request_record(RequestOutcome::Failed {
        kind: RequestErrorKind::Network,
        reason: "no connection".to_string(),
        stop_job: None,
    });
    assert_eq!(offline.status, ItemStatus::Failed);
    assert!(!offline.usage_unknown);
    assert_eq!(offline.stop_if_repeated.as_deref(), Some(STOPPED_OFFLINE));
    assert_eq!(
        offline.stop_if_repeated.as_deref(),
        Some("Stopped: no connection to Anthropic. Run it again to describe the rest.")
    );
    let timeout = request_record(RequestOutcome::Failed {
        kind: RequestErrorKind::Timeout,
        reason: "timed out".to_string(),
        stop_job: None,
    });
    assert!(timeout.usage_unknown);
    assert_eq!(timeout.stop_if_repeated.as_deref(), Some(STOPPED_OFFLINE));
    let refused = request_record(RequestOutcome::Failed {
        kind: RequestErrorKind::Other,
        reason: "key refused".to_string(),
        stop_job: Some("Stopped: Anthropic refused the key.".to_string()),
    });
    assert_eq!(refused.stop_job.as_deref(), Some("Stopped: Anthropic refused the key."));
    assert_eq!((refused.stop_if_repeated, refused.usage_unknown), (None, false));
}
