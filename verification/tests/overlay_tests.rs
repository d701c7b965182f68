use quickshotter::daemon::{
    capture_outcome, crop_rgba, freeze_can_start, get_monitor_rects, live_dim_alpha,
    overlay_targets, OverlayTarget, PickStep, WindowPick,
};
use quickshotter::error::AppError;
use quickshotter::geometry::{
    check_canvas_size, check_monitor_index, compute_overlaps, desktop_bounds_of, desktop_origin,
    get_cursor_position_public, monitor_at, monitor_index_at, ocr_image_rect, safe_crop_region,
    DesktopBounds, ListedMonitor, MonitorInfo, MonitorRect, OverlapRect,
};
use quickshotter::interaction::{Interaction, Phase};
use quickshotter::live_renderer::{bgra, LiveRenderer};
use quickshotter::overlay::{dispatch_result, is_zero_u32, plan_overlay, CaptureAction, OverlayPlan};
use quickshotter::protocol::{CaptureMode, OverlayResult};
use quickshotter::recording::pipeline::RecordingRegion;
use quickshotter::window_detect::{
    cached_window, find_window_at, CachedWindow, DetectState, ListedWindow, WindowDetector, WindowRect,
};

fn rect(x: i32, y: i32, w: u32, h: u32, index: usize) -> MonitorRect {
    MonitorRect { x, y, w, h, index }
}

fn info(index: usize, x: i32, y: i32, width: u32, height: u32) -> MonitorInfo {
    MonitorInfo { index, x, y, width, height }
}

#[test]
fn monitor_hit_test_picks_first_containing() {
    let ms = vec![rect(0, 0, 100, 100, 0), rect(100, 0, 100, 100, 1)];
    assert_eq!(monitor_at(&ms, 150, 50), Some(1));
    assert_eq!(monitor_at(&ms, 100, 0), Some(1));
    assert_eq!(monitor_at(&ms, 99, 99), Some(0));
    assert_eq!(monitor_at(&ms, 250, 50), None);
}

#[test]
fn desktop_bounds_cover_all_monitors() {
    assert_eq!(desktop_bounds_of(&[]), Err(AppError::Capture("No monitors found".to_string())));
    assert_eq!(
        desktop_bounds_of(&[info(0, 10, 20, 800, 600)]),
        Ok(DesktopBounds { x: 10, y: 20, width: 800, height: 600 })
    );
    let ms = [info(0, 0, 0, 1920, 1080), info(1, -1280, 100, 1280, 1024)];
    assert_eq!(desktop_bounds_of(&ms), Ok(DesktopBounds { x: -1280, y: 0, width: 3200, height: 1124 }));
    assert_eq!(desktop_origin(&ms), (-1280, 0));
    assert_eq!(desktop_origin(&[]), (0, 0));
}

#[test]
fn canvas_size_is_capped() {
    assert_eq!(check_canvas_size(8000, 8000), Ok(()));
    assert_eq!(
        check_canvas_size(8001, 8000),
        Err(AppError::Capture("Virtual desktop too large to capture (8001x8000)".to_string()))
    );
}

#[test]
fn cursor_and_monitor_lookup() {
    assert_eq!(get_cursor_position_public(None), (0, 0));
    assert_eq!(get_cursor_position_public(Some((-5, 7))), (-5, 7));
    let ms = vec![
        ListedMonitor { x: None, y: Some(0), width: Some(100), height: Some(100) },
        ListedMonitor { x: Some(0), y: Some(0), width: Some(100), height: Some(100) },
        ListedMonitor { x: Some(100), y: Some(0), width: Some(100), height: Some(100) },
    ];
    assert_eq!(monitor_index_at(&ms, 50, 50), 1);
    assert_eq!(monitor_index_at(&ms, 150, 50), 2);
    assert_eq!(monitor_index_at(&ms, 500, 50), 0);
    assert_eq!(check_monitor_index(1, 2), Ok(()));
    assert_eq!(check_monitor_index(3, 2), Err(AppError::Capture("Monitor index 3 out of range".to_string())));
}

#[test]
fn safe_crop_clamps_or_fails() {
    assert_eq!(safe_crop_region(100, 50, 90, 40, 20, 20), Ok((90, 40, 10, 10)));
    assert_eq!(safe_crop_region(100, 50, 200, 0, 5, 5), Ok((99, 0, 1, 5)));
    assert_eq!(safe_crop_region(100, 50, 10, 10, 30, 20), Ok((10, 10, 30, 20)));
    assert_eq!(
        safe_crop_region(0, 0, 0, 0, 5, 5),
        Err(AppError::Capture("Crop region outside image bounds".to_string()))
    );
}

#[test]
fn ocr_rect_orders_and_offsets() {
    assert_eq!(ocr_image_rect(300, 200, 100, 50, -100, 0), (200, 50, 400, 200));
    assert_eq!(ocr_image_rect(-500, -10, 20, 30, 0, 0), (0, 0, 20, 30));
}

#[test]
fn recording_overlaps_split_region_across_monitors() {
    let ms = [info(0, 0, 0, 1920, 1080), info(1, 1920, 0, 1280, 1024)];
    let r = RecordingRegion { x: 1800, y: 100, width: 300, height: 100 };
    let o = compute_overlaps(&ms, &r, 0, 0);
    assert_eq!(
        o,
        vec![
            OverlapRect { monitor_idx: 0, src_x: 1800, src_y: 100, src_w: 120, src_h: 100, dst_x: 0, dst_y: 0 },
            OverlapRect { monitor_idx: 1, src_x: 0, src_y: 100, src_w: 180, src_h: 100, dst_x: 120, dst_y: 0 },
        ]
    );
}

#[test]
fn overlay_plan_by_mode() {
    assert_eq!(
        plan_overlay("window", false),
        OverlayPlan { start_window_detection: true, needs_capture: false, pass_frozen_image: false }
    );
    assert_eq!(
        plan_overlay("freeze", false),
        OverlayPlan { start_window_detection: false, needs_capture: true, pass_frozen_image: true }
    );
    assert_eq!(
        plan_overlay("record_region", true),
        OverlayPlan { start_window_detection: false, needs_capture: false, pass_frozen_image: false }
    );
    assert_eq!(
        plan_overlay("instant", true),
        OverlayPlan { start_window_detection: false, needs_capture: true, pass_frozen_image: false }
    );
    assert!(is_zero_u32(&0));
    assert!(!is_zero_u32(&3));
}

fn region(x1: i32, y1: i32, x2: i32, y2: i32) -> OverlayResult {
    OverlayResult::Region {
        x1, y1, x2, y2, shift: true, alt: false, crop_path: None, crop_width: None, crop_height: None,
    }
}

#[test]
fn overlay_answers_are_routed() {
    assert_eq!(
        dispatch_result("ocr", (-100, 0), &region(300, 200, 100, 50)),
        CaptureAction::CompleteOcr { img_x1: 200, img_y1: 50, img_x2: 400, img_y2: 200 }
    );
    assert_eq!(
        dispatch_result("freeze", (-100, 0), &region(300, 200, 100, 50)),
        CaptureAction::CompleteRegion { x1: 300, y1: 200, x2: 100, y2: 50, shift: true, alt: false }
    );
    let w = OverlayResult::Window { left: 1, top: 2, right: 3, bottom: 4, shift: false, alt: true };
    assert_eq!(
        dispatch_result("window", (0, 0), &w),
        CaptureAction::CompleteWindow { left: 1, top: 2, right: 3, bottom: 4, shift: false, alt: true }
    );
    assert_eq!(
        dispatch_result("select_screen", (0, 0), &OverlayResult::SelectScreen { monitor_index: 2 }),
        CaptureAction::CompleteSelectScreen { index: 2 }
    );
    assert_eq!(dispatch_result("instant", (0, 0), &OverlayResult::Cancelled), CaptureAction::CloseOverlay);
    assert_eq!(
        dispatch_result("record_region", (0, 0), &OverlayResult::RecordRegion { x: 1, y: 1, width: 5, height: 5 }),
        CaptureAction::CloseOverlay
    );
    assert_eq!(dispatch_result("instant", (0, 0), &OverlayResult::Ready), CaptureAction::Ignore);
}

fn listed(id: u32, title: &str, x: i32, y: i32, w: u32, h: u32, minimized: bool) -> ListedWindow {
    ListedWindow {
        id: Some(id),
        minimized: Some(minimized),
        title: Some(title.to_string()),
        x: Some(x),
        y: Some(y),
        width: Some(w),
        height: Some(h),
    }
}

#[test]
fn topmost_eligible_window_is_found() {
    let ws = vec![
        listed(7, "QuickShotter Overlay", 0, 0, 1000, 1000, false),
        listed(8, "Minimized", 0, 0, 1000, 1000, true),
        listed(9, "", 0, 0, 1000, 1000, false),
        ListedWindow { id: None, ..listed(10, "No id", 0, 0, 1000, 1000, false) },
        listed(11, "Editor", 10, 10, 50, 50, false),
    ];
    assert_eq!(find_window_at(&ws, 20, 20, 7), Some(WindowRect { left: 10, top: 10, right: 60, bottom: 60 }));
    assert_eq!(find_window_at(&ws, 20, 20, 0), Some(WindowRect { left: 0, top: 0, right: 1000, bottom: 1000 }));
    assert_eq!(find_window_at(&ws, 70, 70, 7), None);
}

#[test]
fn detection_state_forgets_after_stop() {
    let mut s = DetectState::new();
    assert_eq!(s.pending_query(), None);
    s.start();
    assert_eq!(s.get_window_rect_at(5, 6, 42), None);
    assert_eq!(s.pending_query(), Some((5, 6, 42)));
    s.store_result(Some(WindowRect { left: 0, top: 0, right: 10, bottom: 10 }));
    assert_eq!(s.get_window_rect_at(7, 8, 42), Some(WindowRect { left: 0, top: 0, right: 10, bottom: 10 }));
    s.stop();
    assert_eq!(s.pending_query(), None);
    assert_eq!(s.get_window_rect_at(7, 8, 42), None);
    // A late answer from the worker is dropped once detection has stopped.
    s.store_result(Some(WindowRect { left: 1, top: 1, right: 2, bottom: 2 }));
    assert_eq!(s.get_window_rect_at(7, 8, 42), None);
    s.start();
    assert_eq!(s.get_window_rect_at(7, 8, 42), None);
}

#[test]
fn overlay_detector_skips_own_windows() {
    let mut d = WindowDetector::new("QuickShotter");
    assert!(d.is_active());
    d.set_windows(vec![
        CachedWindow { title: "QuickShotter Overlay".to_string(), x: 0, y: 0, w: 500, h: 500 },
        CachedWindow { title: "Notes".to_string(), x: 10, y: 10, w: 100, h: 100 },
    ]);
    assert_eq!(d.window_at(20, 20), Some(WindowRect { left: 10, top: 10, right: 110, bottom: 110 }));
    assert_eq!(d.window_at(300, 300), None);
    d.stop();
    assert!(!d.is_active());
    assert_eq!(cached_window(Some(true), Some("x".to_string()), Some(0), Some(0), Some(5), Some(5)), None);
    assert_eq!(cached_window(None, None, Some(0), Some(0), Some(5), Some(5)), None);
    assert_eq!(cached_window(None, Some("x".to_string()), Some(0), Some(0), Some(0), Some(5)), None);
    assert_eq!(cached_window(None, Some("x".to_string()), None, Some(0), Some(5), Some(5)), None);
    assert_eq!(
        cached_window(Some(false), Some("x".to_string()), Some(1), Some(2), Some(5), Some(6)),
        Some(CachedWindow { title: "x".to_string(), x: 1, y: 2, w: 5, h: 6 })
    );
}

#[test]
fn region_interaction_drags_then_finishes() {
    let mut i = Interaction::new(CaptureMode::Freeze);
    assert!(!i.has_selection());
    assert!(i.mouse_down());
    assert_eq!(i.phase, Phase::Dragging);
    assert!(!i.mouse_down());
    assert!(i.has_selection());
    assert!(i.mouse_up(false, true, false));
    assert_eq!(i.phase, Phase::Done);
    assert!(i.region_done());
    assert!(i.shift && !i.alt);
    // Further input does not reopen the selection.
    assert!(!i.mouse_down());
    assert!(!i.mouse_up(true, false, false));
    assert_eq!(i.phase, Phase::Done);
    assert_eq!(capture_outcome(&i, (1, 2, 30, 40)), Some(OverlayResult::Region {
        x1: 1, y1: 2, x2: 30, y2: 40, shift: false, alt: false,
        crop_path: None, crop_width: None, crop_height: None,
    }));
}

#[test]
fn small_drag_cancels() {
    let mut i = Interaction::new(CaptureMode::Live);
    assert!(i.mouse_down());
    assert!(i.mouse_up(true, false, false));
    assert_eq!(i.phase, Phase::Cancelled);
    assert!(!i.region_done());
    assert_eq!(capture_outcome(&i, (0, 0, 1, 1)), Some(OverlayResult::Cancelled));
}

#[test]
fn record_region_reports_size() {
    let mut i = Interaction::new(CaptureMode::RecordRegion);
    i.mouse_down();
    i.mouse_up(false, false, false);
    assert_eq!(
        capture_outcome(&i, (-10, 5, 90, 55)),
        Some(OverlayResult::RecordRegion { x: -10, y: 5, width: 100, height: 50 })
    );
}

#[test]
fn window_interaction_needs_a_target() {
    let mut i = Interaction::new(CaptureMode::Window);
    assert!(!i.mouse_down());
    assert_eq!(i.phase, Phase::Idle);
    assert_eq!(capture_outcome(&i, (0, 0, 0, 0)), None);
    i.set_hovered_window(true);
    i.set_selected_window(1, 2, 300, 400);
    i.mouse_up(false, false, true);
    assert_eq!(i.window_result(), None);
    i.mouse_down();
    assert_eq!(i.phase, Phase::Done);
    assert_eq!(i.window_result(), Some((1, 2, 300, 400, false, true)));
    assert_eq!(
        capture_outcome(&i, (0, 0, 0, 0)),
        Some(OverlayResult::Window { left: 1, top: 2, right: 300, bottom: 400, shift: false, alt: true })
    );
}

#[test]
fn screen_interaction_reports_monitor_index() {
    let mut i = Interaction::new(CaptureMode::SelectScreen);
    i.set_monitors(vec![rect(0, 0, 100, 100, 3), rect(100, 0, 100, 100, 5)]);
    i.update_hovered_monitor(150, 10);
    assert_eq!(i.hovered_monitor, Some(1));
    i.mouse_down();
    assert_eq!(i.screen_result(), Some(5));
    assert_eq!(capture_outcome(&i, (0, 0, 0, 0)), Some(OverlayResult::SelectScreen { monitor_index: 5 }));
    i.cancel();
    assert_eq!(i.phase, Phase::Cancelled);
    assert_eq!(i.screen_result(), None);
}

#[test]
fn crop_copies_rows_and_blanks_missing_ones() {
    // 3x3 image, pixel value = index.
    let src: Vec<u8> = (0..9u8).flat_map(|p| [p, p, p, p]).collect();
    let c = crop_rgba(&src, 3, 3, 1, 1, 2, 2);
    assert_eq!(c, vec![4, 4, 4, 4, 5, 5, 5, 5, 7, 7, 7, 7, 8, 8, 8, 8]);
    let c = crop_rgba(&src, 3, 3, 1, 2, 2, 2);
    assert_eq!(c, vec![7, 7, 7, 7, 8, 8, 8, 8, 0, 0, 0, 0, 0, 0, 0, 0]);
}

#[test]
fn monitor_rects_relative_to_desktop_origin() {
    let ms = vec![
        ListedMonitor { x: Some(-1280), y: Some(0), width: Some(1280), height: Some(1024) },
        ListedMonitor { x: None, y: Some(0), width: Some(10), height: Some(10) },
        ListedMonitor { x: Some(0), y: Some(0), width: Some(1920), height: Some(1080) },
    ];
    assert_eq!(
        get_monitor_rects(&ms, -1280, 0),
        vec![rect(0, 0, 1280, 1024, 0), rect(1280, 0, 1920, 1080, 2)]
    );
}

#[test]
fn window_pick_loop_highlights_then_selects() {
    let w = WindowRect { left: 0, top: 0, right: 10, bottom: 10 };
    let mut p = WindowPick::new();
    assert_eq!(
        p.step(false, Some(w.clone()), true, false, false),
        PickStep::Finish(OverlayResult::Window { left: 0, top: 0, right: 10, bottom: 10, shift: false, alt: false })
    );
    let mut p = WindowPick::new();
    p.click_was_down = true;
    assert_eq!(p.step(false, Some(w.clone()), true, false, false), PickStep::Continue { show: Some(w.clone()), hide: false });
    assert_eq!(p.step(false, Some(w.clone()), false, false, false), PickStep::Continue { show: None, hide: false });
    assert_eq!(
        p.step(false, Some(w.clone()), true, true, false),
        PickStep::Finish(OverlayResult::Window { left: 0, top: 0, right: 10, bottom: 10, shift: true, alt: false })
    );
    let mut p = WindowPick::new();
    p.step(false, Some(w.clone()), false, false, false);
    assert_eq!(p.step(false, None, false, false, false), PickStep::Continue { show: None, hide: true });
    assert_eq!(p.step(false, None, false, false, false), PickStep::Continue { show: None, hide: false });
    assert_eq!(p.step(true, Some(w), false, false, false), PickStep::Finish(OverlayResult::Cancelled));
}

#[test]
fn live_renderer_draws_selection_and_restores() {
    let mut r = LiveRenderer::new(0, 8, 6, 100, CaptureMode::Live);
    let dark = bgra(0, 0, 0, 100);
    let border = bgra(0xff, 0xaa, 0x00, 0xff);
    assert!(r.buffer().iter().all(|p| *p == dark));
    let sel = Some((1, 1, 7, 6));
    assert!(r.can_mark(sel, 2));
    r.render_region_mode(sel);
    let b = r.buffer();
    assert_eq!(b[0], dark);
    assert_eq!(b[8 + 1], border);
    assert_eq!(b[3 * 8 + 3], bgra(0, 0, 0, 0));
    r.render_region_mode(None);
    assert!(r.buffer().iter().all(|p| *p == dark));
    let ms = vec![rect(0, 0, 4, 6, 0), rect(4, 0, 4, 6, 1)];
    assert!(r.can_draw_monitors(&ms));
    r.render_select_screen_mode(&ms, Some(1));
    assert_eq!(r.buffer()[0], bgra(0x80, 0x80, 0x80, 0x80));
    assert_eq!(r.buffer()[4], border);
    assert!(!r.can_mark(Some((0, -10, 5, -5)), 2));
}

#[test]
fn live_overlay_darkening_per_mode() {
    assert_eq!(live_dim_alpha(CaptureMode::Window), 20);
    assert_eq!(live_dim_alpha(CaptureMode::SelectScreen), 20);
    assert_eq!(live_dim_alpha(CaptureMode::Live), 77);
    assert_eq!(live_dim_alpha(CaptureMode::Ocr), 77);
}

#[test]
fn overlay_windows_skip_empty_monitors() {
    let ms = vec![
        ListedMonitor { x: Some(-1920), y: Some(0), width: Some(1920), height: Some(1080) },
        ListedMonitor { x: Some(0), y: Some(0), width: Some(0), height: Some(1080) },
        ListedMonitor { x: None, y: Some(5), width: Some(800), height: None },
        ListedMonitor { x: None, y: Some(5), width: Some(800), height: Some(600) },
    ];
    assert_eq!(
        overlay_targets(&ms),
        vec![
            OverlayTarget { index: 0, x: -1920, y: 0, width: 1920, height: 1080 },
            OverlayTarget { index: 3, x: 0, y: 5, width: 800, height: 600 },
        ]
    );
}

#[test]
fn freeze_needs_one_capture() {
    assert!(!freeze_can_start(&[]));
    assert!(!freeze_can_start(&[false, false]));
    assert!(freeze_can_start(&[false, true]));
}
