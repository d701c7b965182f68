use quickshotter::error::AppError;
use quickshotter::geometry::{MonitorInfo, OverlapRect};
use quickshotter::interaction::{EventOutcome, Interaction, OverlayEvent, Phase};
use quickshotter::messages::{capture_notification, recording_notification, validate_save_folder, FolderProbe};
use quickshotter::protocol::CaptureMode;
use quickshotter::recording::composite::{blit_rgba, composite_overlap, desktop_frame_size, place_capture};
use quickshotter::upload::{catbox_result, trim};

fn image(w: u32, h: u32, base: u8) -> Vec<u8> {
    (0..w * h).flat_map(|p| [base + p as u8, 0, 0, 255]).collect()
}

#[test]
fn blit_copies_block_rows() {
    let src = image(3, 2, 10);
    let mut dst = vec![0u8; 4 * 4 * 4];
    blit_rgba(&mut dst, 4, 4, &src, 3, 2, 1, 0, 2, 1, 2, 2);
    // Row 1 of dst gets src pixels 1,2; row 2 gets src pixels 4,5.
    assert_eq!(&dst[(4 + 2) * 4..(4 + 4) * 4], &[11, 0, 0, 255, 12, 0, 0, 255]);
    assert_eq!(&dst[(8 + 2) * 4..(8 + 4) * 4], &[14, 0, 0, 255, 15, 0, 0, 255]);
    assert!(dst[..(4 + 2) * 4].iter().all(|b| *b == 0));
    assert!(dst[12 * 4..].iter().all(|b| *b == 0));
}

#[test]
fn overlap_is_trimmed_to_capture_and_canvas() {
    let img = image(4, 4, 0);
    let mut canvas = vec![0u8; 3 * 2 * 4];
    let ov = OverlapRect { monitor_idx: 0, src_x: 2, src_y: 1, src_w: 5, src_h: 5, dst_x: 1, dst_y: 0 };
    composite_overlap(&mut canvas, 3, 2, &img, 4, 4, &ov);
    // Copy is 2 wide (capture edge, canvas edge) and 2 high (canvas).
    assert_eq!(canvas, vec![0, 0, 0, 0, 6, 0, 0, 255, 7, 0, 0, 255, 0, 0, 0, 0, 10, 0, 0, 255, 11, 0, 0, 255]);
    let mut c2 = vec![9u8; 3 * 2 * 4];
    let far = OverlapRect { monitor_idx: 0, src_x: 9, src_y: 0, src_w: 1, src_h: 1, dst_x: 0, dst_y: 0 };
    composite_overlap(&mut c2, 3, 2, &img, 4, 4, &far);
    assert!(c2.iter().all(|b| *b == 9));
}

#[test]
fn monitor_captures_tile_the_desktop_canvas() {
    let ms = [
        MonitorInfo { index: 0, x: -2, y: 0, width: 2, height: 1 },
        MonitorInfo { index: 1, x: 0, y: 0, width: 2, height: 2 },
    ];
    let (w, h) = desktop_frame_size(&ms, -2, 0);
    assert_eq!((w, h), (4, 2));
    assert_eq!(desktop_frame_size(&[], 0, 0), (0, 0));
    let mut canvas = vec![0u8; (w * h * 4) as usize];
    place_capture(&mut canvas, w, h, &image(2, 1, 1), 2, 1, 0, 0);
    place_capture(&mut canvas, w, h, &image(2, 2, 20), 2, 2, 2, 0);
    let reds: Vec<u8> = canvas.chunks(4).map(|p| p[0]).collect();
    assert_eq!(reds, vec![1, 2, 20, 21, 0, 0, 22, 23]);
}

#[test]
fn overlay_events_drive_the_interaction() {
    let mut i = Interaction::new(CaptureMode::Live);
    assert_eq!(i.handle_event(OverlayEvent::CursorMoved, true), EventOutcome { finish: false, redraw: true });
    assert_eq!(i.handle_event(OverlayEvent::Modifiers { shift: true, alt: true }, true), EventOutcome { finish: false, redraw: false });
    assert_eq!(i.handle_event(OverlayEvent::LeftPressed, true), EventOutcome { finish: false, redraw: false });
    assert_eq!(i.phase, Phase::Dragging);
    assert_eq!(i.handle_event(OverlayEvent::FocusLost, true), EventOutcome { finish: false, redraw: false });
    assert_eq!(i.handle_event(OverlayEvent::LeftReleased { too_small: false }, true), EventOutcome { finish: true, redraw: false });
    assert_eq!(i.phase, Phase::Done);
    assert!(i.shift && i.alt);

    let mut i = Interaction::new(CaptureMode::Window);
    assert_eq!(i.handle_event(OverlayEvent::FocusLost, false), EventOutcome { finish: false, redraw: false });
    assert_eq!(i.phase, Phase::Idle);
    assert_eq!(i.handle_event(OverlayEvent::FocusLost, true), EventOutcome { finish: true, redraw: false });
    assert_eq!(i.phase, Phase::Cancelled);

    let mut i = Interaction::new(CaptureMode::Freeze);
    assert_eq!(i.handle_event(OverlayEvent::EscapePressed, true).finish, true);
    assert_eq!(i.phase, Phase::Cancelled);
    let mut i = Interaction::new(CaptureMode::Freeze);
    assert_eq!(i.handle_event(OverlayEvent::RightPressed, true).finish, true);
    let mut i = Interaction::new(CaptureMode::Freeze);
    assert_eq!(i.handle_event(OverlayEvent::OtherButton, true).finish, false);
    assert_eq!(i.handle_event(OverlayEvent::CloseRequested, false).finish, true);
}

#[test]
fn save_folder_verdicts() {
    assert_eq!(validate_save_folder(FolderProbe::Existing { is_dir: true, writable: true }), "ok");
    assert_eq!(
        validate_save_folder(FolderProbe::Existing { is_dir: true, writable: false }),
        "Folder exists but is not writable"
    );
    assert_eq!(
        validate_save_folder(FolderProbe::Existing { is_dir: false, writable: true }),
        "Path exists but is not a directory"
    );
    assert_eq!(validate_save_folder(FolderProbe::Missing { parent_is_dir: Some(true) }), "ok");
    assert_eq!(
        validate_save_folder(FolderProbe::Missing { parent_is_dir: Some(false) }),
        "Parent directory does not exist"
    );
    assert_eq!(validate_save_folder(FolderProbe::Missing { parent_is_dir: None }), "Invalid path");
}

#[test]
fn notification_texts() {
    assert_eq!(
        capture_notification(Some(Some("shot.png"))),
        ("Screenshot saved".to_string(), "shot.png".to_string())
    );
    assert_eq!(capture_notification(Some(None)), ("Screenshot saved".to_string(), "screenshot".to_string()));
    assert_eq!(
        capture_notification(None),
        ("Screenshot captured".to_string(), "Copied to clipboard".to_string())
    );
    assert_eq!(recording_notification(Some("r.gif")), ("Recording saved".to_string(), "r.gif".to_string()));
    assert_eq!(recording_notification(None), ("Recording saved".to_string(), "recording".to_string()));
}

#[test]
fn catbox_answers() {
    assert_eq!(trim("  \t https://x/y \n"), "https://x/y");
    assert_eq!(trim(" \u{3000} "), "");
    assert_eq!(catbox_result(true, "https://files.catbox.moe/abc.png\n", ""), Ok("https://files.catbox.moe/abc.png".to_string()));
    assert_eq!(
        catbox_result(true, " error \n", ""),
        Err(AppError::Upload("Unexpected catbox response: error".to_string()))
    );
    assert_eq!(
        catbox_result(false, "", "timeout"),
        Err(AppError::Upload("curl failed: timeout".to_string()))
    );
    for s in ["a b", "\u{85}x\u{a0}", "\u{2028}\u{2029}", "x\u{200b}"] {
        assert_eq!(trim(s), s.trim());
    }
}
