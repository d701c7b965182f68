//! Messages between the capture host and the overlay process. Both sides
//! exchange them as one JSON object per line.

use vstd::prelude::*;

verus! {

/// How the overlay is used for one capture.
#[derive(Debug, Clone, Copy, PartialEq, Eq, Structural)]
pub enum CaptureMode {
    Live,
    Freeze,
    Window,
    RecordRegion,
    Ocr,
    SelectScreen,
}

/// Show a click-through border around a recording region.
#[derive(Debug, PartialEq, Eq)]
pub struct BorderRequest {
    pub x: i32,
    pub y: i32,
    pub width: u32,
    pub height: u32,
    pub origin_x: i32,
    pub origin_y: i32,
    pub bounds_w: u32,
    pub bounds_h: u32,
}

/// Start a capture.
#[derive(Debug, PartialEq, Eq)]
pub struct CaptureRequest {
    pub mode: CaptureMode,
    /// Path to raw RGBA temp file (freeze mode).
    pub image: Option<String>,
    pub image_width: u32,
    pub image_height: u32,
    /// Virtual desktop origin X (physical pixels).
    pub origin_x: i32,
    pub origin_y: i32,
    /// Virtual desktop width (physical pixels).
    pub bounds_w: u32,
    /// Virtual desktop height (physical pixels).
    pub bounds_h: u32,
}

/// Inbound commands (from the host).
#[derive(Debug, PartialEq, Eq)]
pub enum Command {
    Capture(CaptureRequest),
    /// Show a click-through border around a recording region.
    ShowBorder(BorderRequest),
    /// Hide the recording border.
    HideBorder,
    Cancel,
    Quit,
}

/// Outbound results (to the host).
#[derive(Debug, PartialEq, Eq)]
pub enum OverlayResult {
    /// Daemon GPU initialization complete.
    Ready,
    /// Region selected (freeze, live, ocr modes). Coordinates can be negative
    /// (monitors left of / above the primary). In freeze mode the crop is
    /// also written to a raw RGBA file.
    Region {
        x1: i32,
        y1: i32,
        x2: i32,
        y2: i32,
        shift: bool,
        alt: bool,
        crop_path: Option<String>,
        crop_width: Option<u32>,
        crop_height: Option<u32>,
    },
    /// Window selected (window mode).
    Window { left: i32, top: i32, right: i32, bottom: i32, shift: bool, alt: bool },
    /// Recording region selected.
    RecordRegion { x: i32, y: i32, width: u32, height: u32 },
    /// Monitor selected (select_screen mode).
    SelectScreen { monitor_index: u32 },
    /// User cancelled (Escape, right-click, or cancel command).
    Cancelled,
}

} // verus!
