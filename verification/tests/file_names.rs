use frename::file_names::{
    check_new_file_name, eq_ignore_ascii_case, name_ext_from_parts, stem_chars, InlineRename,
    RenameOutcome,
};

#[test]
fn new_file_names_follow_windows_rules() {
    // The folder holds `taken.mp4`; the last argument says whether the typed name is taken.
    assert_eq!(check_new_file_name("a.mp4", "b.mp4", false), Ok(()));
    assert!(check_new_file_name("a.mp4", "", false).is_err());
    assert!(check_new_file_name("a.mp4", "a:b.mp4", false).is_err());
    assert!(check_new_file_name("a.mp4", "a.mp4.", false).is_err());
    assert!(check_new_file_name("a.mp4", "taken.mp4", true).is_err(), "must not overwrite");
    assert_eq!(check_new_file_name("taken.mp4", "TAKEN.mp4", true), Ok(()), "case-only rename");
}

#[test]
fn each_refusal_says_why() {
    assert_eq!(check_new_file_name("a.mp4", "", false), Err("Name is empty"));
    assert_eq!(
        check_new_file_name("a.mp4", "a?.mp4", false),
        Err("Not allowed: \\ / : * ? \" < > |")
    );
    assert_eq!(
        check_new_file_name("a.mp4", "a\tb.mp4", false),
        Err("Not allowed: \\ / : * ? \" < > |"),
        "a control character"
    );
    assert_eq!(check_new_file_name("a.mp4", "a.mp4 ", false), Err("Cannot end with a dot or space"));
    assert_eq!(check_new_file_name("a.mp4", "b.mp4", true), Err("A file with this name exists"));
}

#[test]
fn case_is_ignored_only_for_ascii_letters() {
    assert!(eq_ignore_ascii_case("Clip.MP4", "clip.mp4"));
    assert!(!eq_ignore_ascii_case("Ä.mp4", "ä.mp4"));
    assert!(!eq_ignore_ascii_case("a.mp4", "a.mp"));
    assert!(!eq_ignore_ascii_case("[", "{"));
}

#[test]
fn the_rename_editor_selects_the_name_before_the_extension() {
    assert_eq!(stem_chars("Food. Goat. clip.mp4"), 16);
    assert_eq!(stem_chars("no extension"), 12);
    assert_eq!(stem_chars(".hidden"), 0);
    assert_eq!(stem_chars("ä.mp4"), 1);
    assert_eq!(stem_chars(""), 0);
}

#[test]
fn the_name_line_joins_name_and_extension() {
    assert_eq!(name_ext_from_parts("clip", ".mp4"), "clip.mp4");
    assert_eq!(name_ext_from_parts("clip", ""), "clip");
    assert_eq!(name_ext_from_parts("", ".mp4"), ".mp4");
}

#[test]
fn the_rename_editor_opens_with_the_name_and_keeps_the_reason_until_the_next_edit() {
    let (mut rename, selected) = InlineRename::start(4, "Goat. clip.mp4".to_string());
    assert_eq!(selected, 10);
    assert_eq!(rename.text, "Goat. clip.mp4");
    rename.input("a:b.mp4".to_string());
    assert_eq!(rename.submit("Goat. clip.mp4", false, "a:b.mp4", false), RenameOutcome::Refused);
    assert_eq!(rename.error, Some("Not allowed: \\ / : * ? \" < > |"));
    rename.input("b.mp4".to_string());
    assert_eq!(rename.error, None);
    assert_eq!(rename.id, 4);
}

#[test]
fn enter_renames_to_the_trimmed_name() {
    let (mut rename, _) = InlineRename::start(1, "a.mp4".to_string());
    rename.input("  Food. a.mp4 \t".to_string());
    assert_eq!(rename.typed(), "Food. a.mp4");
    assert_eq!(
        rename.submit("a.mp4", false, "Food. a.mp4", false),
        RenameOutcome::Rename("Food. a.mp4".to_string())
    );
}

#[test]
fn an_unchanged_name_just_closes_the_editor() {
    let (mut rename, _) = InlineRename::start(1, "a.mp4".to_string());
    rename.input(" a.mp4 ".to_string());
    assert_eq!(rename.submit("a.mp4", true, "a.mp4", true), RenameOutcome::Unchanged);
}

#[test]
fn the_name_written_back_from_the_tags_must_pass_too() {
    let (mut rename, _) = InlineRename::start(1, "a.mp4".to_string());
    rename.input("Food.a.mp4".to_string());
    assert_eq!(rename.submit("a.mp4", false, "Food. a.mp4", true), RenameOutcome::Refused);
    assert_eq!(rename.error, Some("A file with this name exists"));
}
