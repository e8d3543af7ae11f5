use frename::batch::actions::generate_subtitles::before_work;
use frename::batch::ItemStatus;
use frename::batch::actions::generate_subtitles::{
    audio_length_text, failure_reason, job_report, plan_lines, repeated_keys, shared_subtitle_names, usd_text, Cost, item_result, not_sent, ApiFailure, Failure, KeyStatus, Outcome, Message, Options, PlanCounts, PlanRequest, Price, KEY_REJECTED, LABEL,
};

/// What the app keeps of a plan besides its counts: here its seconds of audio.
type AudioSeconds = u32;

fn options() -> Options<AudioSeconds, f64> {
    Options::new()
}

fn counts(transcribe: usize, rebuilt_free: usize) -> PlanCounts {
    PlanCounts { transcribe, rebuilt_free, ..PlanCounts::default() }
}

#[test]
fn the_run_button_names_what_is_sent() {
    let mut options = options();
    options.update(Message::SetKey(KeyStatus::Present("k".to_string())));
    let request = options.take_plan_request();
    assert!(request.is_none(), "nothing asked for before a change");
    options.invalidate_plan();
    let request = options.take_plan_request().expect("plan request");
    options.plan_ready(request.generation, counts(8, 0), 41);
    assert_eq!(
        options.run_button(),
        ("Transcribe 8 videos".to_string(), false),
        "price pending"
    );
    let key = options.take_price_request().expect("price request");
    assert!(options.take_price_request().is_none(), "once per key");
    options.price_ready(key.clone(), Price::Learned(0.1));
    assert_eq!(options.run_button(), ("Transcribe 8 videos".to_string(), true));
    options.price_ready(key, Price::Rejected);
    assert!(!options.run_button().1, "key rejected");
    assert!(options.key_rejected());

    // An answer for an older set of files is dropped.
    options.update(Message::SetReplace(true));
    let old = request.generation;
    options.plan_ready(old, counts(0, 0), 0);
    assert_eq!(options.run_button(), ("Transcribe".to_string(), false));
}

#[test]
fn a_request_carries_the_generation_and_the_replace_option() {
    let mut options = options();
    options.update(Message::SetReplace(true));
    assert_eq!(
        options.take_plan_request(),
        Some(PlanRequest { generation: 1, replace: true })
    );
    options.invalidate_plan();
    assert_eq!(
        options.take_plan_request(),
        Some(PlanRequest { generation: 2, replace: true })
    );
    options.plan_ready(2, counts(1, 0), 7);
    assert_eq!(options.plan(), Some(&(counts(1, 0), 7)));
}

#[test]
fn free_rebuilds_need_no_price() {
    let mut options = options();
    options.update(Message::SetKey(KeyStatus::Present("k".to_string())));
    options.invalidate_plan();
    let request = options.take_plan_request().unwrap();
    options.plan_ready(request.generation, counts(0, 2), 0);
    assert_eq!(options.run_button(), ("Build 2 subtitles (free)".to_string(), true));
}

#[test]
fn nothing_to_transcribe_never_runs() {
    let mut options = options();
    options.update(Message::SetKey(KeyStatus::Present("k".to_string())));
    options.invalidate_plan();
    options.plan_ready(1, counts(0, 0), 0);
    assert_eq!(options.run_button(), ("Nothing to transcribe".to_string(), false));
}

#[test]
fn without_a_key_nothing_runs() {
    let mut options = options();
    assert!(options.needs_key());
    options.update(Message::SetKey(KeyStatus::Missing));
    assert!(!options.needs_key());
    options.invalidate_plan();
    options.plan_ready(1, counts(0, 1), 0);
    assert_eq!(options.run_button(), ("Build 1 subtitle (free)".to_string(), false));
    assert!(options.take_price_request().is_none());
}

#[test]
fn a_saved_key_is_looked_up_again() {
    let mut options = options();
    options.update(Message::SetKey(KeyStatus::Present("k".to_string())));
    assert_eq!(options.take_price_request(), Some("k".to_string()));
    options.price_ready("other".to_string(), Price::Typical);
    assert!(!options.key_rejected());
    options.update(Message::KeySaved);
    assert_eq!(options.take_price_request(), Some("k".to_string()));
    options.update(Message::SetKey(KeyStatus::Present("k2".to_string())));
    assert_eq!(options.take_price_request(), Some("k2".to_string()));
}

#[test]
fn the_texts() {
    assert_eq!(LABEL, "Generate subtitles");
    assert_eq!(KEY_REJECTED, "Soniox rejected the key");
    assert!(matches!(KeyStatus::default(), KeyStatus::Unknown));
}

#[test]
fn the_plan_reads_in_plain_words() {
    let plan = PlanCounts {
        transcribe: 8,
        unknown_length: 2,
        already_subtitled: 3,
        rebuilt_free: 2,
        shared_name: 1,
        ..PlanCounts::default()
    };
    // 41 * 60 s of audio; the app works out the cost at the typical price: 7 cents.
    let typical: Option<Price<f64>> = Some(Price::Typical);
    assert_eq!(
        plan_lines(plan, 41 * 60, true, &typical, Cost::Cents(7)),
        [
            "8 videos to transcribe, 41 min of audio + 2 of unknown length · about $0.07 (typical price)",
            "3 already have subtitles",
            "2 rebuilt free from a saved transcript",
            "1 shares its subtitle name with another video",
        ]
    );
    let none: Option<Price<f64>> = None;
    assert_eq!(
        plan_lines(PlanCounts::default(), 0, false, &none, Cost::Cents(0)),
        ["Nothing to transcribe"]
    );
    let unknown = PlanCounts { transcribe: 2, unknown_length: 2, unreadable: 1, ..PlanCounts::default() };
    assert_eq!(
        plan_lines(unknown, 0, false, &typical, Cost::Cents(0)),
        [
            "2 videos to transcribe, 0 s of audio + 2 of unknown length · cost unknown",
            "1 cannot be read (to read .mkv, .m2ts, .avi …, install ffmpeg from ffmpeg.org, \
             add it to PATH, restart frename)",
        ]
    );
}

#[test]
fn the_plan_line_names_the_price_it_used() {
    let plan = PlanCounts { transcribe: 1, ..PlanCounts::default() };
    let learned: Option<Price<f64>> = Some(Price::Learned(0.12));
    assert_eq!(
        plan_lines(plan, 20, true, &learned, Cost::LessThanACent),
        ["1 video to transcribe, 20 s of audio · about less than $0.01"]
    );
    let rejected: Option<Price<f64>> = Some(Price::Rejected);
    assert_eq!(
        plan_lines(plan, 3_900, true, &rejected, Cost::Cents(1_205)),
        ["1 video to transcribe, 1 h 5 min of audio · about $12.05 (typical price)"]
    );
    let looking_up: Option<Price<f64>> = None;
    assert_eq!(
        plan_lines(plan, 20, true, &looking_up, Cost::Cents(0)),
        ["1 video to transcribe, 20 s of audio · Estimating…"]
    );
}

#[test]
fn dollars_are_shown_to_the_cent() {
    assert_eq!(usd_text(Cost::Cents(7)), "$0.07");
    assert_eq!(usd_text(Cost::Cents(0)), "$0.00");
    assert_eq!(usd_text(Cost::Cents(1_240)), "$12.40");
    assert_eq!(usd_text(Cost::LessThanACent), "less than $0.01");
}

#[test]
fn the_report_says_what_was_sent_at_least() {
    assert_eq!(job_report(0, Cost::Cents(0), 0), None);
    // 41 min uploaded at the job's price: 8 cents, worked out by the app.
    assert_eq!(
        job_report(41 * 60 * 1000, Cost::Cents(8), 1).as_deref(),
        Some(
            "Soniox: at least 41 min · about $0.08. 1 upload could not be deleted on Soniox \
             (see the log)"
        )
    );
}

#[test]
fn the_report_rounds_to_whole_seconds_and_names_each_part_alone() {
    assert_eq!(
        job_report(19_500, Cost::LessThanACent, 0).as_deref(),
        Some("Soniox: at least 20 s · about less than $0.01")
    );
    assert_eq!(
        job_report(19_499, Cost::Cents(1), 0).as_deref(),
        Some("Soniox: at least 19 s · about $0.01")
    );
    assert_eq!(
        job_report(0, Cost::Cents(0), 3).as_deref(),
        Some("3 uploads could not be deleted on Soniox (see the log)")
    );
}

#[test]
fn of_videos_sharing_a_subtitle_name_the_first_keeps_it() {
    let outputs = [
        "C:/clips/done.srt".to_string(),
        "C:/clips/pair.srt".to_string(),
        "C:/clips/PAIR.srt".to_string(),
        "C:/clips/other.srt".to_string(),
        "C:/clips/Pair.SRT".to_string(),
    ];
    assert_eq!(shared_subtitle_names(&outputs), [false, false, true, false, true]);
    let keys = ["a".to_string(), "A".to_string(), "a".to_string()];
    assert_eq!(repeated_keys(&keys), [false, false, true]);
}

#[test]
fn each_kind_of_file_not_sent_has_its_line() {
    let plan = PlanCounts {
        already_subtitled: 1,
        no_speech_before: 2,
        no_audio: 1,
        shared_name: 2,
        ..PlanCounts::default()
    };
    assert_eq!(
        not_sent(plan),
        [
            "1 already has subtitles",
            "2 had no speech last time",
            "1 has no audio",
            "2 share their subtitle name with another video",
            "Nothing to transcribe",
        ]
    );
}

fn soniox_error(status: u16, error_type: &str, fatal: bool) -> Failure {
    Failure {
        api: Some(ApiFailure {
            status: Some(status),
            error_type: error_type.to_string(),
            message: "message from Soniox".to_string(),
            fatal,
        }),
        chain: format!("Soniox {status}: message from Soniox"),
        root: "message from Soniox".to_string(),
    }
}

fn plain_error(chain: &str, root: &str) -> Failure {
    Failure { api: None, chain: chain.to_string(), root: root.to_string() }
}

#[test]
fn outcomes_map_to_statuses_and_reasons() {
    let status = |outcome| {
        let result = item_result(Ok(outcome), false);
        (result.status, result.reason)
    };
    assert_eq!(status(Outcome::NoSpeech), (ItemStatus::Skipped, Some("no speech".to_string())));
    assert_eq!(status(Outcome::NoAudio), (ItemStatus::Skipped, Some("no audio".to_string())));
    assert_eq!(
        status(Outcome::Skipped),
        (ItemStatus::Skipped, Some("already had subtitles".to_string()))
    );
    assert_eq!(status(Outcome::Written), (ItemStatus::Done, None));
}

#[test]
fn a_fatal_soniox_error_stops_the_job_with_a_short_message() {
    let rejected = item_result(Err(soniox_error(401, "unauthenticated", true)), false);
    assert_eq!(rejected.status, ItemStatus::Failed);
    let stop = rejected.stop_job.expect("stops the job");
    assert_eq!(stop.message, KEY_REJECTED);
    assert!(stop.open_settings);

    let empty = item_result(Err(soniox_error(402, "organization_balance_exhausted", true)), false);
    assert_eq!(
        empty.stop_job.map(|s| s.message).as_deref(),
        Some("Soniox balance is empty. Top it up at console.soniox.com.")
    );

    let ordinary = item_result(Err(soniox_error(400, "invalid_audio_file", false)), false);
    assert!(ordinary.stop_job.is_none());
    assert_eq!(ordinary.reason.as_deref(), Some("failed: Soniox: message from Soniox"));
}

#[test]
fn other_fatal_errors_name_their_kind() {
    let budget = item_result(Err(soniox_error(402, "project_budget_exhausted", true)), false);
    assert_eq!(
        budget.stop_job.map(|s| (s.message, s.open_settings)),
        Some(("The Soniox monthly budget is used up. Raise it at console.soniox.com.".to_string(), false))
    );
    let other = item_result(Err(soniox_error(500, "internal", true)), false);
    assert_eq!(
        other.stop_job.map(|s| s.message).as_deref(),
        Some("Soniox stopped the job (internal).")
    );
    let denied = item_result(Err(soniox_error(403, "permission_denied", true)), false);
    assert!(denied.stop_job.expect("stops").open_settings);
}

#[test]
fn a_network_failure_reads_as_such() {
    let e = plain_error("request to Soniox failed: error sending request", "error sending request");
    assert_eq!(failure_reason(&e), "failed: cannot reach Soniox");
    let e = plain_error("unsupported container", "unsupported container");
    assert_eq!(failure_reason(&e), "audio format not supported");
}

#[test]
fn another_failure_shows_the_start_of_its_cause() {
    let long = "x".repeat(200);
    let e = plain_error(&format!("reading: {long}"), &long);
    assert_eq!(failure_reason(&e), format!("failed: {}", "x".repeat(120)));
    let e = plain_error("disk full", "disk full");
    assert_eq!(failure_reason(&e), "failed: disk full");
}

#[test]
fn a_cancelled_file_is_not_reached_not_failed() {
    let result = item_result(Err(soniox_error(401, "unauthenticated", true)), true);
    assert_eq!(result.status, ItemStatus::Pending);
    assert!(result.stop_job.is_none());
}

#[test]
fn audio_lengths_read_short() {
    assert_eq!(audio_length_text(20), "20 s");
    assert_eq!(audio_length_text(41 * 60), "41 min");
    assert_eq!(audio_length_text(41 * 60 + 29), "41 min");
    assert_eq!(audio_length_text(41 * 60 + 30), "42 min", "to the nearest minute");
    assert_eq!(audio_length_text(3900), "1 h 5 min");
    assert_eq!(audio_length_text(0), "0 s");
}

#[test]
fn a_file_the_plan_left_out_is_skipped_with_its_reason_and_a_cancel_leaves_it_pending() {
    let excluded = before_work(Some("too long"), true).expect("decided");
    assert_eq!((excluded.status, excluded.reason.as_deref()), (ItemStatus::Skipped, Some("too long")));
    assert!(excluded.stop_job.is_none());
    let cancelled = before_work(None, true).expect("decided");
    assert_eq!((cancelled.status, cancelled.reason), (ItemStatus::Pending, None));
    assert!(before_work(None, false).is_none(), "transcribed");
}
