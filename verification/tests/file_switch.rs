use frename::file_switch::{FileSwitch, Opened, Unloaded};

/// What is saved of a file here: its new name.
type Saved = &'static str;

#[test]
fn deferred_rename_fires_after_media_unloaded() {
    let mut switch: FileSwitch<Saved> = FileSwitch::new();
    // The first file opens: nothing to save yet.
    assert_eq!(switch.file_opened(None, false, false), Opened::OpenMedia);
    // Its video is loading when the next file opens: the rename of the first waits.
    assert_eq!(
        switch.file_opened(Some((0, "pick.file_0.mp4")), false, true),
        Opened::UnloadFirst
    );
    assert!(switch.has_pending_save(), "rename must be deferred while video is loading/active");
    assert_eq!(
        switch.media_unloaded(),
        Unloaded::SaveLeft { id: 0, saved: "pick.file_0.mp4" }
    );
    assert!(!switch.has_pending_save(), "pending rename must be consumed after Unloaded");
}

#[test]
fn pending_rename_is_consumed_on_media_unloaded() {
    let mut switch: FileSwitch<Saved> = FileSwitch::new();
    switch.file_opened(Some((0, "file_0.mp4")), false, true);
    assert!(switch.has_pending_save(), "rename must be pending");
    switch.media_unloaded();
    assert!(!switch.has_pending_save(), "pending must be None after Unloaded");
    assert_eq!(switch.media_unloaded(), Unloaded::Nothing);
    assert!(!switch.has_pending_save(), "still None after second Unloaded");
}

#[test]
fn without_a_playing_video_the_file_left_is_saved_at_once() {
    let mut switch: FileSwitch<Saved> = FileSwitch::new();
    assert_eq!(
        switch.file_opened(Some((3, "a.mp4")), false, false),
        Opened::SaveLeft { id: 3, saved: "a.mp4", open_media: true }
    );
    assert_eq!(
        switch.file_opened(Some((3, "a.mp4")), true, false),
        Opened::SaveLeft { id: 3, saved: "a.mp4", open_media: false },
        "a refresh of the same file saves it without reopening the video"
    );
    assert_eq!(switch.file_opened(None, true, false), Opened::Nothing);
}

#[test]
fn a_batch_job_waits_for_the_unload_first() {
    let mut switch: FileSwitch<Saved> = FileSwitch::new();
    switch.file_opened(Some((1, "b.mp4")), false, true);
    switch.batch_waits_for_unload();
    assert_eq!(switch.media_unloaded(), Unloaded::RunBatch);
    assert_eq!(switch.take_pending(), Some((1, "b.mp4")), "saved before the job's first file");
    assert!(!switch.has_pending_save());
}

#[test]
fn another_folder_drops_the_waiting_save() {
    let mut switch: FileSwitch<Saved> = FileSwitch::new();
    switch.file_opened(Some((1, "b.mp4")), false, true);
    switch.forget_pending();
    assert_eq!(switch.media_unloaded(), Unloaded::Nothing);
}
