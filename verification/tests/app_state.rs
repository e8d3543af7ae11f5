use frename::bundled_gstreamer::{
    bundled_gstreamer_environment, MARKER_PLUGIN, PLUGIN_DIR, PLUGIN_SCANNER, REGISTRY_FILE,
};
use frename::drag_drop::DragDropState;
use frename::file_handler::FileHandlerState;

#[test]
fn a_bundle_gets_its_own_plugins_scanner_and_a_registry_in_the_data_folder() {
    let environment = bundled_gstreamer_environment(
        "exe/lib/gstreamer-1.0".to_string(),
        "exe/gst-plugin-scanner.exe".to_string(),
        "data/gst-registry-x86_64.bin".to_string(),
        true,
    )
    .expect("a bundle");
    assert_eq!(
        environment.remove,
        vec![
            "GST_PLUGIN_PATH",
            "GST_PLUGIN_PATH_1_0",
            "GST_PLUGIN_SYSTEM_PATH",
            "GST_PLUGIN_SCANNER",
            "GST_REGISTRY",
        ]
    );
    assert_eq!(
        environment.set,
        vec![
            ("GST_PLUGIN_SYSTEM_PATH_1_0", "exe/lib/gstreamer-1.0".to_string()),
            ("GST_PLUGIN_SCANNER_1_0", "exe/gst-plugin-scanner.exe".to_string()),
            ("GST_REGISTRY_1_0", "data/gst-registry-x86_64.bin".to_string()),
        ]
    );
}

#[test]
fn without_bundled_plugins_nothing_changes() {
    assert_eq!(
        bundled_gstreamer_environment(String::new(), String::new(), String::new(), false),
        None
    );
}

#[test]
fn the_bundle_layout() {
    assert_eq!(MARKER_PLUGIN, "gstcoreelements.dll");
    assert_eq!(PLUGIN_DIR, ["lib", "gstreamer-1.0"]);
    assert_eq!(PLUGIN_SCANNER, "gst-plugin-scanner.exe");
    assert_eq!(REGISTRY_FILE, "gst-registry-x86_64.bin");
}

#[test]
fn the_last_dropped_file_is_kept() {
    let mut state = DragDropState::default();
    assert_eq!(state.dropped_file, None);
    state.handle_file_dropped("a.mp4".to_string());
    state.handle_file_dropped("b.mp4".to_string());
    assert_eq!(state.dropped_file.as_deref(), Some("b.mp4"));
}

#[test]
fn the_opened_file_is_the_current_one() {
    let mut state = FileHandlerState::default();
    assert_eq!(state.current_file(), None);
    state.open_file("C:/clips/a.mp4".to_string());
    state.open_file("C:/clips/b.mp4".to_string());
    assert_eq!(state.current_file().map(|p| p.as_str()), Some("C:/clips/b.mp4"));
}

#[test]
fn the_window_is_named_after_the_dropped_file() {
    let mut state = DragDropState::default();
    assert_eq!(state.title(), "frename");
    state.handle_file_dropped("C:/clips/a.mp4".to_string());
    assert_eq!(state.title(), "C:/clips/a.mp4");
}
