use frename::demo::{check_screenshot_size, demo_args, steps, DemoRun, DemoStep};

fn args(list: &[&str]) -> Vec<String> {
    list.iter().map(|a| a.to_string()).collect()
}

#[test]
fn no_demo_flag_means_a_normal_start() {
    assert_eq!(demo_args(&args(&["frename", "--out", "x.png"])), None);
}

#[test]
fn demo_takes_a_scenario_and_an_output() {
    assert_eq!(
        demo_args(&args(&["frename", "--demo", "a.toml", "--out", "a.png"])),
        Some(Ok(("a.toml".to_string(), "a.png".to_string())))
    );
    assert_eq!(
        demo_args(&args(&["frename", "--out", "a.png", "--demo", "a.toml"])),
        Some(Ok(("a.toml".to_string(), "a.png".to_string())))
    );
}

#[test]
fn demo_without_a_scenario_or_an_output_is_an_error() {
    assert!(matches!(
        demo_args(&args(&["frename", "--demo", "a.toml"])),
        Some(Err(_))
    ));
    assert!(matches!(
        demo_args(&args(&["frename", "--demo", "--out", "a.png"])),
        Some(Err(_))
    ));
}

#[test]
fn a_flag_is_not_taken_as_a_value() {
    assert!(matches!(
        demo_args(&args(&["frename", "--out", "--demo", "a.toml"])),
        Some(Err(_))
    ));
}

#[test]
fn the_first_of_a_repeated_flag_counts() {
    assert_eq!(
        demo_args(&args(&["frename", "--demo", "a.toml", "--demo", "b.toml", "--out", "a.png"])),
        Some(Ok(("a.toml".to_string(), "a.png".to_string())))
    );
}

#[test]
fn a_demo_flag_at_the_end_is_an_error() {
    assert_eq!(
        demo_args(&args(&["frename", "--out", "a.png", "--demo"])),
        Some(Err("--demo needs a value".to_string()))
    );
}

#[test]
fn a_missing_output_says_what_is_needed() {
    assert_eq!(
        demo_args(&args(&["frename", "--demo", "a.toml"])),
        Some(Err("--demo needs --out <file.png>".to_string()))
    );
}

#[test]
fn the_video_is_paused_at_the_scenario_time_and_batch_mode_only_when_asked() {
    assert_eq!(steps(false), vec![DemoStep::SeekToScenarioTime]);
    let batch = steps(true);
    assert_eq!(batch.len(), 3);
    assert_eq!(batch[1], DemoStep::SetBatchMode);
    assert_eq!(batch[2], DemoStep::CheckAll);
}

#[test]
fn only_the_first_ready_video_sets_up_the_scenario() {
    let mut run = DemoRun::new();
    assert!(run.video_ready());
    assert!(!run.video_ready());
}

#[test]
fn a_screenshot_of_another_size_is_refused() {
    let error = check_screenshot_size((4, 2), (8, 4)).unwrap_err();
    assert!(error.contains("4x2"), "{error}");
    assert_eq!(
        error,
        "the window is 4x2 pixels, not 8x4 (the display must fit it, at scale 1)"
    );
    assert_eq!(check_screenshot_size((4, 2), (4, 2)), Ok(()));
}
