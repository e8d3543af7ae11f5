use frename::file_workspace::screenshot_comment;
use frename::file_workspace::{commented_tag_change, editor_text, AiBlockMessage, AiBlockState};

const BLOCK: &str = "AI: A walk.\n0:00–0:05 Street.\n— model, 2026-09-26 —";

#[test]
fn the_editors_trailing_line_breaks_are_not_stored() {
    assert_eq!(editor_text("Mine\n"), "Mine");
    assert_eq!(editor_text("Mine\n\n\n"), "Mine");
    assert_eq!(editor_text("a\nb"), "a\nb");
    assert_eq!(editor_text("\n"), "");
    assert_eq!(editor_text(""), "");
}

#[test]
fn remove_takes_out_only_the_block_after_asking() {
    let mut block = AiBlockState::new(BLOCK.to_string());
    assert!(!block.update(AiBlockMessage::AskRemove));
    assert!(block.confirm_remove_ai());
    assert!(!block.update(AiBlockMessage::CancelRemove));
    assert!(!block.confirm_remove_ai());
    assert_eq!(block.ai_block(), BLOCK);

    block.update(AiBlockMessage::AskRemove);
    assert!(block.update(AiBlockMessage::ConfirmRemove), "the comment is stored again");
    assert!(block.ai_block().is_empty());
    assert!(!block.confirm_remove_ai());
}

#[test]
fn the_segments_fold_and_unfold() {
    let mut block = AiBlockState::new(BLOCK.to_string());
    assert!(!block.show_ai_segments());
    block.update(AiBlockMessage::ToggleSegments);
    assert!(block.show_ai_segments());
    block.open(String::new());
    assert!(block.show_ai_segments(), "the folding stays for the next file");
    assert_eq!(block.ai_block(), "");
}

#[test]
fn an_ai_description_alone_does_not_check_the_commented_tag() {
    // The editor's own text goes from empty to "x": checked.
    assert_eq!(commented_tag_change(true, false), Some(true));
    // Cleared: unchecked, whatever the AI description.
    assert_eq!(commented_tag_change(false, true), Some(false));
    // Other edits leave it to the user.
    assert_eq!(commented_tag_change(false, false), None);
    assert_eq!(commented_tag_change(true, true), None);
}

#[test]
fn a_screenshot_adds_its_time_to_the_comment_unless_it_repeats_one() {
    assert_eq!(screenshot_comment(&[], 65_000, "", "1:05"), Some("1:05: ".to_string()));
    assert_eq!(
        screenshot_comment(&[1_000], 65_000, "Intro", "1:05"),
        Some("Intro\n1:05: ".to_string())
    );
    assert_eq!(screenshot_comment(&[64_950], 65_000, "Intro", "1:05"), None, "within 100 ms");
    assert_eq!(screenshot_comment(&[65_040], 65_000, "Intro", "1:05"), None, "within 100 ms after");
    assert_eq!(
        screenshot_comment(&[64_900, 65_100], 65_000, "", "1:05"),
        Some("1:05: ".to_string()),
        "100 ms apart is far enough"
    );
}
