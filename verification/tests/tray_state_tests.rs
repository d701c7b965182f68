use quickshotter::config::AppConfig;
use quickshotter::geometry::DesktopBounds;
use quickshotter::recording::pipeline::RecordingRegion;
use quickshotter::messages::{
    close_hides_window, hotkey_failure_message, ready_notification, update_notification,
};
use quickshotter::state::{AppState, RecordingToggle, MAX_HISTORY};
use quickshotter::tray::{capture_item_label, menu_action, MenuAction};
use quickshotter::tray::{
    format_hotkey_display, format_hotkey_display_macos, fullscreen_hotkey_action,
    history_index, history_menu_entries, hotkeys_changed, parse_usize, record_hotkey_action,
    fullscreen_target, FullscreenAction, FullscreenTarget, MenuEntry, RecordAction,
};

fn state() -> AppState {
    AppState::new(AppConfig::with_save_folder("/tmp".to_string()))
}

#[test]
fn hotkey_labels_per_platform() {
    assert_eq!(format_hotkey_display("CmdOrCtrl+Alt+Shift+S"), "Ctrl+Alt+Shift+S");
    assert_eq!(format_hotkey_display("Alt+Backquote"), "Alt+`");
    assert_eq!(format_hotkey_display_macos("CmdOrCtrl+Alt+Shift+S"), "\u{2318}\u{2325}\u{21e7}S");
    assert_eq!(format_hotkey_display_macos("Alt+Backquote"), "\u{2325}`");
}

#[test]
fn history_menu_lists_newest_first() {
    let names = vec![Some("a.png".to_string()), None, Some("c.png".to_string())];
    let entries = history_menu_entries(&names);
    assert_eq!(
        entries,
        vec![
            MenuEntry { id: "history_2".to_string(), label: "c.png".to_string() },
            MenuEntry { id: "history_1".to_string(), label: "Capture 2".to_string() },
            MenuEntry { id: "history_0".to_string(), label: "a.png".to_string() },
        ]
    );
    assert!(history_menu_entries(&[]).is_empty());
}

#[test]
fn history_ids_parse_like_usize() {
    assert_eq!(history_index("history_3"), Some(3));
    assert_eq!(history_index("history_+4"), Some(4));
    assert_eq!(history_index("history_007"), Some(7));
    assert_eq!(history_index("history_"), None);
    assert_eq!(history_index("history_x"), None);
    assert_eq!(history_index("history_-1"), None);
    assert_eq!(history_index("capture_region"), None);
    assert_eq!(history_index("history_99999999999999999999999"), None);
    for s in ["0", "+12", "18446744073709551615", "", "+", "1a", " 1"] {
        assert_eq!(parse_usize(s), s.parse::<usize>().ok(), "{s:?}");
    }
}

#[test]
fn hotkey_handlers() {
    assert_eq!(fullscreen_hotkey_action("select"), FullscreenAction::SelectScreen);
    assert_eq!(fullscreen_hotkey_action("current"), FullscreenAction::CaptureNow);
    assert_eq!(record_hotkey_action(true), RecordAction::Stop);
    assert_eq!(record_hotkey_action(false), RecordAction::SelectRegion);
    let a = AppConfig::with_save_folder("/tmp".to_string());
    let mut b = AppConfig::with_save_folder("/elsewhere".to_string());
    assert!(!hotkeys_changed(&a, &b));
    b.hotkey_window = "Alt+W".to_string();
    assert!(hotkeys_changed(&a, &b));
    let mut c = AppConfig::with_save_folder("/tmp".to_string());
    c.hotkey_ocr = "Alt+O".to_string();
    assert!(hotkeys_changed(&a, &c));
    let mut d = AppConfig::with_save_folder("/tmp".to_string());
    d.hotkey_record = "Alt+R".to_string();
    assert!(hotkeys_changed(&a, &d));
}

#[test]
fn history_is_bounded_and_keeps_newest() {
    let mut s = state();
    for i in 0..7 {
        s.add_to_history(format!("p{i}"));
        assert!(s.capture_history.len() <= MAX_HISTORY);
    }
    let h: Vec<&str> = s.capture_history.iter().map(|p| p.as_str()).collect();
    assert_eq!(h, vec!["p2", "p3", "p4", "p5", "p6"]);
    s.record_saved("last.png".to_string());
    assert_eq!(s.capture_history.back().map(|p| p.as_str()), Some("last.png"));
    assert_eq!(s.capture_history.len(), 5);
    assert_eq!(s.last_saved_path.as_deref(), Some("last.png"));
}

#[test]
fn rapid_capture_requests_open_one_overlay() {
    let mut s = state();
    assert!(s.try_begin_capture("freeze"));
    assert_eq!(s.overlay_mode, "freeze");
    assert!(!s.try_begin_capture("window"));
    assert_eq!(s.overlay_mode, "freeze");
    s.cache_bounds(&DesktopBounds { x: -1920, y: 0, width: 3840, height: 1080 });
    assert_eq!(s.cached_desktop_bounds(), Some(DesktopBounds { x: -1920, y: 0, width: 3840, height: 1080 }));
    s.reset_capture_state();
    assert!(!s.is_capturing);
    assert_eq!(s.cached_desktop_bounds(), None);
    assert!(s.try_begin_capture("window"));
    s.abort_capture();
    assert!(!s.is_busy());
}

#[test]
fn annotation_and_recording_block_captures() {
    let mut s = state();
    assert!(s.try_begin_annotation());
    assert!(!s.try_begin_annotation());
    assert!(!s.try_begin_capture("instant"));
    assert_eq!(s.recording_toggle(), RecordingToggle::Ignore);
    assert!(!s.try_begin_region_recording());
    s.end_annotation();
    assert_eq!(s.recording_toggle(), RecordingToggle::Start);

    assert!(s.try_begin_capture("record_region"));
    assert!(s.try_begin_region_recording());
    assert!(!s.is_capturing);
    assert!(s.is_recording);
    assert_eq!(s.recording_toggle(), RecordingToggle::Stop);
    assert!(!s.try_begin_capture("instant"));
    s.begin_recording(Some(RecordingRegion { x: 1, y: 2, width: 3, height: 4 }));
    assert!(s.end_recording());
    assert!(!s.end_recording());
    assert_eq!(s.recording_region, None);
    s.begin_annotation();
    assert!(s.is_annotating);
}

#[test]
fn recording_indicator_offers_saved_file_after_stop() {
    let mut s = state();
    s.record_saved("rec.mp4".to_string());
    s.begin_recording(None);
    assert_eq!(s.saved_recording_path(), None);
    s.end_recording();
    assert_eq!(s.saved_recording_path(), Some("rec.mp4".to_string()));
}

#[test]
fn tray_menu_items_map_to_actions() {
    assert_eq!(menu_action("capture_region"), MenuAction::CaptureRegion);
    assert_eq!(menu_action("capture_window"), MenuAction::CaptureWindow);
    assert_eq!(menu_action("capture_fullscreen"), MenuAction::CaptureFullscreen);
    assert_eq!(menu_action("record_screen"), MenuAction::RecordScreen);
    assert_eq!(menu_action("record_region"), MenuAction::RecordRegion);
    assert_eq!(menu_action("stop_recording"), MenuAction::StopRecording);
    assert_eq!(menu_action("ocr_region"), MenuAction::OcrRegion);
    assert_eq!(menu_action("upload_imgur"), MenuAction::Upload);
    assert_eq!(menu_action("annotate_file"), MenuAction::AnnotateFile);
    assert_eq!(menu_action("settings"), MenuAction::Settings);
    assert_eq!(menu_action("exit"), MenuAction::Exit);
    assert_eq!(menu_action("history_4"), MenuAction::History(4));
    assert_eq!(menu_action("history_"), MenuAction::Unknown);
    assert_eq!(menu_action("recent_menu"), MenuAction::Unknown);
    assert_eq!(capture_item_label("Region", "Alt+Backquote", false), "Region  (Alt+`)");
    assert_eq!(capture_item_label("Window", "CmdOrCtrl+Alt+Shift+W", true), "Window  (\u{2318}\u{2325}\u{21e7}W)");
}

#[test]
fn closing_windows_clears_their_flags() {
    let mut s = state();
    assert!(s.try_begin_capture("instant"));
    s.overlay_window_id = 77;
    s.on_window_destroyed("settings");
    assert!(s.is_capturing);
    s.on_window_destroyed("overlay");
    assert!(!s.is_capturing);
    assert_eq!(s.overlay_window_id, 0);
    s.begin_annotation();
    s.on_window_destroyed("annotation");
    assert!(!s.is_annotating);
    assert!(close_hides_window("settings"));
    assert!(!close_hides_window("overlay"));
    assert_eq!(ready_notification("Alt+`"), "Press Alt+` to capture");
    assert_eq!(hotkey_failure_message("busy", false), "Failed to register hotkeys: busy");
    assert_eq!(
        hotkey_failure_message("busy", true),
        "Failed to register hotkeys: busy\nCheck System Settings > Privacy & Security > Accessibility"
    );
}

#[test]
fn fullscreen_mode_picks_target() {
    assert_eq!(fullscreen_target("current"), FullscreenTarget::CurrentMonitor);
    assert_eq!(fullscreen_target("all"), FullscreenTarget::AllMonitors);
    assert_eq!(fullscreen_target(""), FullscreenTarget::AllMonitors);
}

#[test]
fn update_notification_names_version() {
    assert_eq!(
        update_notification("1.4.0"),
        "v1.4.0 is ready \u{2014} open Settings > About to update."
    );
}
