use quickshotter::config::{
    safe_base_name, save_folder_from,
    capture_base_name, check_config, default_save_folder, choose_timestamp_format, default_alt_tool,
    default_annotate_default_tool, default_capture_mode, default_ctrl_tool,
    default_filename_suffix, default_hotkey_window, default_shift_tool, keep_searching,
    numbered_file_name, plain_file_name, sanitize_filename_part, timestamp_format,
    validate_config, AppConfig, COLLISION_LIMIT,
};
use quickshotter::error::AppError;
use quickshotter::text::{replace_all, starts_with, str_eq};

fn config() -> AppConfig {
    AppConfig::with_save_folder("/tmp/shots".to_string())
}

#[test]
fn defaults_match_factory_settings() {
    let c = config();
    assert_eq!(c.save_folder, "/tmp/shots");
    assert_eq!(c.hotkey_region, "Alt+Backquote");
    assert_eq!(c.hotkey_fullscreen, "CmdOrCtrl+Alt+Shift+D");
    assert_eq!(c.hotkey_window, "CmdOrCtrl+Alt+Shift+W");
    assert_eq!(c.format, "png");
    assert_eq!(c.filename_prefix, "screenshot");
    assert!(c.save_to_disk);
    assert_eq!(c.capture_mode, "instant");
    assert!(!c.annotate_captures);
    assert_eq!(c.annotate_shift_tool, "arrow");
    assert_eq!(c.annotate_ctrl_tool, "oval");
    assert_eq!(c.annotate_alt_tool, "text");
    assert_eq!(c.annotate_default_tool, "freehand");
    assert_eq!(c.filename_suffix, "%Y-%m-%d_%H-%M-%S");
    assert!(!c.launch_on_startup);
    assert_eq!(default_annotate_default_tool(), "freehand");
    assert_eq!(default_filename_suffix(), "%Y-%m-%d_%H-%M-%S");
    assert_eq!(default_capture_mode(), "instant");
    assert_eq!(default_hotkey_window(), "CmdOrCtrl+Alt+Shift+W");
    assert_eq!(default_shift_tool(), "arrow");
    assert_eq!(default_ctrl_tool(), "oval");
    assert_eq!(default_alt_tool(), "text");
}

#[test]
fn default_trait_keeps_factory_settings() {
    let c = AppConfig::default();
    assert_eq!(c.format, "png");
    assert_eq!(c.hotkey_region, "Alt+Backquote");
    assert!(!c.save_folder.is_empty());
    assert!(c.save_folder.ends_with("Screenshots"));
}

#[test]
fn sanitize_strips_reserved_characters_and_double_dots() {
    assert_eq!(sanitize_filename_part("a/b\\c:d"), "a_b_c_d");
    assert_eq!(sanitize_filename_part("x<y>z|\"q\"?*"), "x_y_z__q___");
    assert_eq!(sanitize_filename_part("a\0b"), "a_b");
    assert_eq!(sanitize_filename_part("../x"), "__x");
    assert_eq!(sanitize_filename_part("..."), "_.");
    assert_eq!(sanitize_filename_part("...."), "__");
    assert_eq!(sanitize_filename_part("v1.2"), "v1.2");
    assert_eq!(sanitize_filename_part(""), "");
}

#[test]
fn sanitized_parts_never_hold_reserved_text() {
    for s in ["..\\..\\windows", "a..b..c", ". . ..", "/../..//", "%Y/%m/%d"] {
        let r = sanitize_filename_part(s);
        assert!(!r.contains(".."), "{r}");
        assert!(!r.chars().any(|c| "/\\:<>|\"?*\0".contains(c)), "{r}");
    }
}

#[test]
fn validation_accepts_defaults() {
    assert_eq!(validate_config(&config()), Ok(()));
    let mut c = config();
    c.format = "jpeg".to_string();
    c.capture_mode = "freeze".to_string();
    assert_eq!(validate_config(&c), Ok(()));
}

#[test]
fn validation_reports_first_problem() {
    let mut c = config();
    c.format = "bmp".to_string();
    c.capture_mode = "slow".to_string();
    assert_eq!(validate_config(&c), Err(AppError::Config("Invalid image format: bmp".to_string())));
    c.format = "webp".to_string();
    assert_eq!(validate_config(&c), Err(AppError::Config("Invalid capture mode: slow".to_string())));
    c.capture_mode = "live".to_string();
    c.filename_suffix = "bad%".to_string();
    assert_eq!(
        validate_config(&c),
        Err(AppError::Config("Invalid date format in filename suffix".to_string()))
    );
}

#[test]
fn check_config_takes_parser_answer() {
    let c = config();
    assert_eq!(check_config(&c, false), Ok(()));
    assert_eq!(
        check_config(&c, true),
        Err(AppError::Config("Invalid date format in filename suffix".to_string()))
    );
}

#[test]
fn timestamp_format_falls_back_on_bad_suffix() {
    assert_eq!(timestamp_format("%Y%m%d"), "%Y%m%d");
    assert_eq!(timestamp_format("oops%"), "%Y-%m-%d_%H-%M-%S");
    assert_eq!(choose_timestamp_format("%H", false), "%H");
    assert_eq!(choose_timestamp_format("%H", true), "%Y-%m-%d_%H-%M-%S");
}

#[test]
fn file_names_for_captures() {
    assert_eq!(capture_base_name("screenshot", "2026-02-28_14-30-00"), "screenshot_2026-02-28_14-30-00");
    assert_eq!(plain_file_name("shot", "png"), "shot.png");
    assert_eq!(numbered_file_name("shot", "png", 2), "shot_2.png");
    assert_eq!(numbered_file_name("shot", "jpg", 9999), "shot_9999.jpg");
    assert!(keep_searching(true, 2));
    assert!(!keep_searching(false, 2));
    assert!(!keep_searching(true, COLLISION_LIMIT));
}

#[test]
fn text_helpers() {
    assert_eq!(replace_all("a--b--", "--", "+"), "a+b+");
    assert_eq!(replace_all("aaa", "aa", "b"), "ba");
    assert!(starts_with("QuickShotter Overlay", "QuickShotter"));
    assert!(!starts_with("Quick", "QuickShotter"));
    assert!(str_eq("abc", "abc"));
    assert!(!str_eq("abc", "abd"));
}

#[test]
fn default_save_folder_is_screenshots() {
    let folder = default_save_folder();
    assert!(folder.ends_with("Screenshots"));
    assert!(folder.len() > "Screenshots".len());
}

#[test]
fn validation_covers_recording_and_delay_settings() {
    let mut c = config();
    assert_eq!(check_config(&c, false), Ok(()));
    c.capture_delay = 4;
    assert_eq!(check_config(&c, false), Err(AppError::Config("Invalid capture delay: 4".to_string())));
    c.capture_delay = 10;
    c.recording_format = "avi".to_string();
    assert_eq!(check_config(&c, false), Err(AppError::Config("Invalid recording format: avi".to_string())));
    c.recording_format = "gif".to_string();
    c.recording_fps = 60;
    assert_eq!(check_config(&c, false), Err(AppError::Config("Invalid recording FPS: 60".to_string())));
    c.recording_fps = 24;
    c.gif_max_width = 99;
    assert_eq!(
        check_config(&c, false),
        Err(AppError::Config("GIF max width must be 100-3840, got 99".to_string()))
    );
    c.gif_max_width = 3840;
    c.gif_max_duration = 121;
    assert_eq!(
        check_config(&c, false),
        Err(AppError::Config("GIF max duration must be 0-120s, got 121".to_string()))
    );
    c.gif_max_duration = 120;
    assert_eq!(check_config(&c, false), Ok(()));
    // The image format is checked first.
    c.format = "bmp".to_string();
    c.capture_delay = 1;
    assert_eq!(check_config(&c, false), Err(AppError::Config("Invalid image format: bmp".to_string())));
}

#[test]
fn base_name_keeps_last_path_component() {
    assert_eq!(safe_base_name("shot", "2026-02-28", "F"), "shot_2026-02-28");
    // `%D` writes slashes: only the last component names the file.
    assert_eq!(safe_base_name("shot", "02/28/26", "F"), "26");
    assert_eq!(safe_base_name("shot", "a\\b", "F"), "b");
    assert_eq!(safe_base_name("shot", "x/.", "F"), "shot_x");
    assert_eq!(safe_base_name("shot", "x//", "F"), "shot_x");
    assert_eq!(safe_base_name("shot", "x/..", "F"), "screenshot_F");
    assert_eq!(safe_base_name("", "/", "F"), "_");
}

#[test]
fn save_folder_prefers_pictures_then_home() {
    let sep = std::path::MAIN_SEPARATOR;
    assert_eq!(
        save_folder_from(Some("/p".to_string()), Some("/h".to_string())),
        format!("/p{sep}Screenshots")
    );
    assert_eq!(
        save_folder_from(None, Some("/h".to_string())),
        format!("/h{sep}Pictures{sep}Screenshots")
    );
    assert_eq!(save_folder_from(None, None), "~/Pictures/Screenshots");
}
