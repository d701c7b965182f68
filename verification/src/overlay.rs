//! Decisions of the host around the selection overlay: what to prepare
//! before it opens, and where its answer is routed.

use vstd::prelude::*;
use crate::geometry::{ocr_image_rect, spec_ocr_image_rect};
use crate::protocol::OverlayResult;
use crate::text::str_eq;

verus! {

/// Serialisation helper: a zero size is left out of the capture command.
pub fn is_zero_u32(v: &u32) -> (r: bool)
    ensures
        r == (*v == 0),
{
    *v == 0
}

/// What has to happen before the overlay is shown.
#[derive(Debug, PartialEq, Eq)]
pub struct OverlayPlan {
    /// Window mode: start the window-detection worker.
    pub start_window_detection: bool,
    /// Capture the whole desktop before the overlay covers it.
    pub needs_capture: bool,
    /// Hand that capture to the overlay as its frozen background.
    pub pass_frozen_image: bool,
}

/// The preparation for an overlay opened in `mode`. On macOS every mode but
/// region recording captures first (the webview overlay shows the capture).
pub fn plan_overlay(mode: &str, macos: bool) -> (p: OverlayPlan)
    ensures
        p.start_window_detection == (mode@ == "window"@),
        p.needs_capture == (mode@ != "record_region"@ && (mode@ == "freeze"@ || macos)),
        p.pass_frozen_image == (p.needs_capture && mode@ == "freeze"@),
{
    let is_window = str_eq(mode, "window");
    let is_recording = str_eq(mode, "record_region");
    let is_freeze = str_eq(mode, "freeze");
    let needs_capture = !is_recording && (is_freeze || macos);
    OverlayPlan {
        start_window_detection: is_window,
        needs_capture,
        pass_frozen_image: needs_capture && is_freeze,
    }
}

/// What the host does with the overlay's answer. Every answer but `Ready`
/// closes the overlay afterwards.
#[derive(Debug, PartialEq, Eq)]
pub enum CaptureAction {
    /// Nothing to do.
    Ignore,
    /// Recognise text in this rectangle of the pending capture.
    CompleteOcr { img_x1: u32, img_y1: u32, img_x2: u32, img_y2: u32 },
    /// Capture this screen region.
    CompleteRegion { x1: i32, y1: i32, x2: i32, y2: i32, shift: bool, alt: bool },
    /// Capture this window.
    CompleteWindow { left: i32, top: i32, right: i32, bottom: i32, shift: bool, alt: bool },
    /// Capture this monitor.
    CompleteSelectScreen { index: usize },
    /// Only close the overlay.
    CloseOverlay,
}

/// The routing of an overlay answer: region answers go to text
/// recognition when the overlay was opened in `ocr` mode (converted to
/// pixel coordinates of the capture whose top-left is `origin`), to region
/// capture otherwise.
pub open spec fn spec_dispatch(overlay_mode: Seq<char>, origin: (i32, i32), r: OverlayResult) -> CaptureAction {
    match r {
        OverlayResult::Ready => CaptureAction::Ignore,
        OverlayResult::Region { x1, y1, x2, y2, shift, alt, .. } => if overlay_mode == "ocr"@ {
            let c = spec_ocr_image_rect(x1, y1, x2, y2, origin.0, origin.1);
            CaptureAction::CompleteOcr { img_x1: c.0, img_y1: c.1, img_x2: c.2, img_y2: c.3 }
        } else {
            CaptureAction::CompleteRegion { x1, y1, x2, y2, shift, alt }
        },
        OverlayResult::Window { left, top, right, bottom, shift, alt } => CaptureAction::CompleteWindow {
            left,
            top,
            right,
            bottom,
            shift,
            alt,
        },
        OverlayResult::RecordRegion { .. } => CaptureAction::CloseOverlay,
        OverlayResult::SelectScreen { monitor_index } => CaptureAction::CompleteSelectScreen {
            index: monitor_index as usize,
        },
        OverlayResult::Cancelled => CaptureAction::CloseOverlay,
    }
}

/// Routes an overlay answer to the capture step that completes it.
pub fn dispatch_result(overlay_mode: &str, origin: (i32, i32), result: &OverlayResult) -> (a: CaptureAction)
    ensures
        a == spec_dispatch(overlay_mode@, origin, *result),
{
    match result {
        OverlayResult::Ready => CaptureAction::Ignore,
        OverlayResult::Region { x1, y1, x2, y2, shift, alt, .. } => {
            if str_eq(overlay_mode, "ocr") {
                let (a, b, c, d) = ocr_image_rect(*x1, *y1, *x2, *y2, origin.0, origin.1);
                CaptureAction::CompleteOcr { img_x1: a, img_y1: b, img_x2: c, img_y2: d }
            } else {
                CaptureAction::CompleteRegion {
                    x1: *x1,
                    y1: *y1,
                    x2: *x2,
                    y2: *y2,
                    shift: *shift,
                    alt: *alt,
                }
            }
        },
        OverlayResult::Window { left, top, right, bottom, shift, alt } => {
            CaptureAction::CompleteWindow {
                left: *left,
                top: *top,
                right: *right,
                bottom: *bottom,
                shift: *shift,
                alt: *alt,
            }
        },
        OverlayResult::RecordRegion { .. } => CaptureAction::CloseOverlay,
        OverlayResult::SelectScreen { monitor_index } => {
            CaptureAction::CompleteSelectScreen { index: *monitor_index as usize }
        },
        OverlayResult::Cancelled => CaptureAction::CloseOverlay,
    }
}

} // verus!
