//! Logic of the overlay process: the answer sent back when an interaction
//! ends, cropping of frozen captures, the monitor list in overlay
//! coordinates, and the polling loop of window-pick mode.

use vstd::prelude::*;
use crate::bytes::{push_range, push_zeros, zeros};
use crate::geometry::{ListedMonitor, MonitorRect};
use crate::interaction::{Interaction, Phase};
use crate::protocol::{CaptureMode, OverlayResult};
use crate::window_detect::WindowRect;

verus! {

// -- The answer of a finished interaction --

/// The answer to send when the interaction has ended, given the region
/// selection `(x1, y1, x2, y2)` in screen coordinates (ordered corners):
/// `None` while it is still running.
pub open spec fn spec_outcome(s: Interaction, region: (i32, i32, i32, i32)) -> Option<OverlayResult> {
    if s.phase == Phase::Cancelled {
        Some(OverlayResult::Cancelled)
    } else if s.phase == Phase::Done {
        match s.mode {
            CaptureMode::Window => match s.selected_window {
                Some((l, t, r, b)) => Some(
                    OverlayResult::Window { left: l, top: t, right: r, bottom: b, shift: s.shift, alt: s.alt },
                ),
                None => None,
            },
            CaptureMode::SelectScreen => match s.selected_monitor {
                Some(i) => if i < s.monitors@.len() {
                    Some(OverlayResult::SelectScreen { monitor_index: s.monitors@[i as int].index as u32 })
                } else {
                    None
                },
                None => None,
            },
            CaptureMode::RecordRegion => Some(
                OverlayResult::RecordRegion {
                    x: region.0,
                    y: region.1,
                    width: (region.2 - region.0) as u32,
                    height: (region.3 - region.1) as u32,
                },
            ),
            _ => Some(
                OverlayResult::Region {
                    x1: region.0,
                    y1: region.1,
                    x2: region.2,
                    y2: region.3,
                    shift: s.shift,
                    alt: s.alt,
                    crop_path: None,
                    crop_width: None,
                    crop_height: None,
                },
            ),
        }
    } else {
        None
    }
}

/// A finished interaction answers with its own state: a region mode sends
/// the given corners with the modifiers held at release (Shift forces the
/// editor, Alt flips saving), a window pick sends the selected window with
/// those modifiers, a region recording sends the corners as origin and size;
/// a cancelled interaction answers `Cancelled`, a running one nothing.
pub proof fn law_outcome_carries_selection_and_modifiers(s: Interaction, region: (i32, i32, i32, i32))
    ensures
        s.phase == Phase::Cancelled ==> spec_outcome(s, region) == Some(OverlayResult::Cancelled),
        s.phase != Phase::Cancelled && s.phase != Phase::Done ==> spec_outcome(s, region) is None,
        s.phase == Phase::Done && (s.mode == CaptureMode::Live || s.mode == CaptureMode::Freeze
            || s.mode == CaptureMode::Ocr) ==> spec_outcome(s, region) == Some(
            OverlayResult::Region {
                x1: region.0,
                y1: region.1,
                x2: region.2,
                y2: region.3,
                shift: s.shift,
                alt: s.alt,
                crop_path: None,
                crop_width: None,
                crop_height: None,
            },
        ),
        s.phase == Phase::Done && s.mode == CaptureMode::Window ==> (match s.selected_window {
            Some((l, t, r, b)) => spec_outcome(s, region) == Some(
                OverlayResult::Window { left: l, top: t, right: r, bottom: b, shift: s.shift, alt: s.alt },
            ),
            None => spec_outcome(s, region) is None,
        }),
        s.phase == Phase::Done && s.mode == CaptureMode::RecordRegion && region.0 <= region.2
            && region.1 <= region.3 ==> (spec_outcome(s, region) matches Some(
            OverlayResult::RecordRegion { x, y, width, height },
        ) && x == region.0 && y == region.1 && x + width == region.2 && y + height == region.3),
{
}

/// The answer to send to the host once the interaction has ended.
/// `region` is the selection in whole screen pixels (ordered corners); it is
/// read in region modes only.
pub fn capture_outcome(s: &Interaction, region: (i32, i32, i32, i32)) -> (r: Option<OverlayResult>)
    ensures
        r == spec_outcome(*s, region),
{
    if s.phase == Phase::Cancelled {
        return Some(OverlayResult::Cancelled);
    }
    if s.phase != Phase::Done {
        return None;
    }
    match s.mode {
        CaptureMode::Window => match s.window_result() {
            Some((left, top, right, bottom, shift, alt)) => Some(
                OverlayResult::Window { left, top, right, bottom, shift, alt },
            ),
            None => None,
        },
        CaptureMode::SelectScreen => match s.screen_result() {
            Some(idx) => Some(OverlayResult::SelectScreen { monitor_index: idx as u32 }),
            None => None,
        },
        CaptureMode::RecordRegion => {
            let (x1, y1, x2, y2) = region;
            let width = (x2 as i64 - x1 as i64) as u32;
            let height = (y2 as i64 - y1 as i64) as u32;
            Some(OverlayResult::RecordRegion { x: x1, y: y1, width, height })
        },
        _ => {
            let (x1, y1, x2, y2) = region;
            Some(
                OverlayResult::Region {
                    x1,
                    y1,
                    x2,
                    y2,
                    shift: s.shift,
                    alt: s.alt,
                    crop_path: None,
                    crop_width: None,
                    crop_height: None,
                },
            )
        },
    }
}

// -- Cropping a frozen capture --

/// Offset in bytes of row `row` of the crop inside the source image.
pub open spec fn crop_row_start(src_w: u32, x: u32, y: u32, row: nat) -> int {
    ((y + row) * src_w + x) * 4
}

/// The first `k` rows of the crop: each row is the source's `w` pixels at
/// `(x, y + row)`, or zeros where the source buffer ends before that row.
pub open spec fn crop_rows(src: Seq<u8>, src_w: u32, x: u32, y: u32, w: u32, k: nat) -> Seq<u8>
    decreases k,
{
    if k == 0 {
        Seq::empty()
    } else {
        let row = (k - 1) as nat;
        let start = crop_row_start(src_w, x, y, row);
        crop_rows(src, src_w, x, y, w, row) + if start + w * 4 <= src.len() {
            src.subrange(start, start + w * 4)
        } else {
            zeros((w * 4) as nat)
        }
    }
}

/// Copies a `w` x `h` rectangle at `(x, y)` out of an RGBA buffer whose rows
/// are `src_w` pixels wide. Rows that would read past the end of the buffer
/// are left black.
pub fn crop_rgba(src: &[u8], src_w: u32, src_h: u32, x: u32, y: u32, w: u32, h: u32) -> (r: Vec<u8>)
    requires
        w * h * 4 <= u32::MAX,
        h > 0 ==> y + h - 1 <= u32::MAX,
        h > 0 ==> ((y + h - 1) * src_w + x) * 4 <= u32::MAX,
    ensures
        r@ == crop_rows(src@, src_w, x, y, w, h as nat),
        r@.len() == w * h * 4,
{
    let mut dst: Vec<u8> = Vec::new();
    let mut row: u32 = 0;
    while row < h
        invariant
            row <= h,
            w * h * 4 <= u32::MAX,
            h > 0 ==> y + h - 1 <= u32::MAX,
            h > 0 ==> ((y + h - 1) * src_w + x) * 4 <= u32::MAX,
            dst@ == crop_rows(src@, src_w, x, y, w, row as nat),
            dst@.len() == row * w * 4,
        decreases h - row,
    {
        assert((y + row) * src_w <= (y + h - 1) * src_w) by (nonlinear_arith)
            requires
                row < h,
        ;
        assert((row + 1) * w * 4 == row * w * 4 + w * 4) by (nonlinear_arith);
        assert((row + 1) * w * 4 <= w * h * 4) by (nonlinear_arith)
            requires
                row < h,
        ;
        assert(w * 4 <= w * h * 4) by (nonlinear_arith)
            requires
                row < h,
        ;
        let row_len: u32 = w * 4;
        let src_row: u32 = y + row;
        let src_start: u32 = (src_row * src_w + x) * 4;
        let start = src_start as usize;
        if (start as u64) + (row_len as u64) <= (src.len() as u64) {
            push_range(&mut dst, src, start, row_len as usize);
        } else {
            push_zeros(&mut dst, row_len as usize);
        }
        row = row + 1;
    }
    assert(h * w * 4 == w * h * 4) by (nonlinear_arith);
    dst
}

// -- Monitors in overlay coordinates --

/// The listed monitors whose geometry could be read, moved so that the
/// virtual desktop's origin is at `(0, 0)`, each keeping its position in
/// the OS list as its index.
pub open spec fn monitor_rects_from(ms: Seq<ListedMonitor>, ox: i32, oy: i32, k: nat) -> Seq<MonitorRect>
    decreases k,
{
    if k == 0 {
        Seq::empty()
    } else {
        let i = (k - 1) as nat;
        let m = ms[i as int];
        monitor_rects_from(ms, ox, oy, i) + if m.x is Some && m.y is Some && m.width is Some
            && m.height is Some {
            seq![
                MonitorRect {
                    x: (m.x->0 - ox) as i32,
                    y: (m.y->0 - oy) as i32,
                    w: m.width->0,
                    h: m.height->0,
                    index: i as usize,
                },
            ]
        } else {
            Seq::empty()
        }
    }
}

/// Monitor rectangles for select-screen mode, relative to the virtual
/// desktop origin `(origin_x, origin_y)`.
pub fn get_monitor_rects(monitors: &[ListedMonitor], origin_x: i32, origin_y: i32) -> (r: Vec<MonitorRect>)
    requires
        forall|i: int|
            0 <= i < monitors@.len() ==> {
                let m = #[trigger] monitors@[i];
                (m.x matches Some(x) ==> i32::MIN <= x - origin_x <= i32::MAX) && (m.y matches Some(
                    y,
                ) ==> i32::MIN <= y - origin_y <= i32::MAX)
            },
    ensures
        r@ == monitor_rects_from(monitors@, origin_x, origin_y, monitors@.len()),
{
    let mut out: Vec<MonitorRect> = Vec::new();
    let mut i: usize = 0;
    while i < monitors.len()
        invariant
            i <= monitors@.len(),
            forall|k: int|
                0 <= k < monitors@.len() ==> {
                    let m = #[trigger] monitors@[k];
                    (m.x matches Some(x) ==> i32::MIN <= x - origin_x <= i32::MAX) && (
                    m.y matches Some(y) ==> i32::MIN <= y - origin_y <= i32::MAX)
                },
            out@ == monitor_rects_from(monitors@, origin_x, origin_y, i as nat),
        decreases monitors@.len() - i,
    {
        let m = &monitors[i];
        let ghost before = out@;
        match (m.x, m.y, m.width, m.height) {
            (Some(x), Some(y), Some(w), Some(h)) => {
                out.push(MonitorRect { x: x - origin_x, y: y - origin_y, w, h, index: i });
            },
            _ => {},
        }
        assert(out@ =~= monitor_rects_from(monitors@, origin_x, origin_y, (i + 1) as nat));
        i += 1;
    }
    out
}

// -- Opening the overlay windows --

/// Darkening of the live (Windows) overlay: light for picking a window or a
/// screen, stronger for drawing a region.
pub fn live_dim_alpha(mode: CaptureMode) -> (a: u8)
    ensures
        a == (if mode == CaptureMode::Window || mode == CaptureMode::SelectScreen {
            20u8
        } else {
            77u8
        }),
{
    match mode {
        CaptureMode::Window | CaptureMode::SelectScreen => 20,
        _ => 77,
    }
}

/// A monitor that gets an overlay window: its position in the OS list, its
/// origin and its size.
#[derive(Debug, PartialEq, Eq)]
pub struct OverlayTarget {
    pub index: usize,
    pub x: i32,
    pub y: i32,
    pub width: u32,
    pub height: u32,
}

/// The overlay windows to open for the first `k` listed monitors: one per
/// monitor of non-zero size, a coordinate or size that could not be read
/// counting as 0.
pub open spec fn overlay_targets_from(ms: Seq<ListedMonitor>, k: nat) -> Seq<OverlayTarget>
    decreases k,
{
    if k == 0 {
        Seq::empty()
    } else {
        let i = (k - 1) as nat;
        let m = ms[i as int];
        let w = m.width.unwrap_or(0);
        let h = m.height.unwrap_or(0);
        overlay_targets_from(ms, i) + if w != 0 && h != 0 {
            seq![
                OverlayTarget {
                    index: i as usize,
                    x: m.x.unwrap_or(0),
                    y: m.y.unwrap_or(0),
                    width: w,
                    height: h,
                },
            ]
        } else {
            Seq::empty()
        }
    }
}

/// The monitors that get an overlay window when a capture starts.
pub fn overlay_targets(monitors: &[ListedMonitor]) -> (r: Vec<OverlayTarget>)
    ensures
        r@ == overlay_targets_from(monitors@, monitors@.len()),
{
    let mut out: Vec<OverlayTarget> = Vec::new();
    let mut i: usize = 0;
    while i < monitors.len()
        invariant
            i <= monitors@.len(),
            out@ == overlay_targets_from(monitors@, i as nat),
        decreases monitors@.len() - i,
    {
        let m = &monitors[i];
        let w = m.width.unwrap_or(0);
        let h = m.height.unwrap_or(0);
        if w != 0 && h != 0 {
            out.push(
                OverlayTarget { index: i, x: m.x.unwrap_or(0), y: m.y.unwrap_or(0), width: w, height: h },
            );
        }
        assert(out@ =~= overlay_targets_from(monitors@, (i + 1) as nat));
        i += 1;
    }
    out
}

/// A frozen capture can go on when at least one monitor was captured.
pub fn freeze_can_start(captured: &[bool]) -> (r: bool)
    ensures
        r == exists|i: int| 0 <= i < captured@.len() && captured@[i],
{
    let mut i: usize = 0;
    while i < captured.len()
        invariant
            i <= captured@.len(),
            forall|k: int| 0 <= k < i ==> !captured@[k],
        decreases captured@.len() - i,
    {
        if captured[i] {
            return true;
        }
        i += 1;
    }
    false
}

// -- Window-pick polling loop --

/// State of the window-pick loop between two polls.
#[derive(Debug, PartialEq, Eq)]
pub struct WindowPick {
    /// Bounds of the highlighted window.
    pub last_window: Option<(i32, i32, i32, i32)>,
    /// The left button was down at the previous poll.
    pub click_was_down: bool,
}

/// What the loop does after one poll.
#[derive(Debug, PartialEq, Eq)]
pub enum PickStep {
    /// Hide the highlight and answer the host.
    Finish(OverlayResult),
    /// Keep polling, after drawing the highlight around a newly hovered
    /// window or hiding it.
    Continue { show: Option<WindowRect>, hide: bool },
}

impl WindowPick {
    pub fn new() -> (p: WindowPick)
        ensures
            p.last_window is None,
            !p.click_was_down,
    {
        WindowPick { last_window: None, click_was_down: false }
    }

    /// One poll: `escape` and `click_down` are the key states, `hit` the
    /// window under the cursor, `shift` and `alt` the modifiers. Escape
    /// cancels; a fresh left click (down now, up at the previous poll) over
    /// a window picks it.
    pub fn step(
        &mut self,
        escape: bool,
        hit: Option<WindowRect>,
        click_down: bool,
        shift: bool,
        alt: bool,
    ) -> (r: PickStep)
        ensures
            escape ==> r == PickStep::Finish(OverlayResult::Cancelled),
            !escape ==> match hit {
                Some(w) => {
                    let b = (w.left, w.top, w.right, w.bottom);
                    if click_down && !old(self).click_was_down {
                        r == PickStep::Finish(
                            OverlayResult::Window {
                                left: w.left,
                                top: w.top,
                                right: w.right,
                                bottom: w.bottom,
                                shift,
                                alt,
                            },
                        )
                    } else {
                        &&& r == PickStep::Continue {
                            show: if old(self).last_window != Some(b) {
                                Some(w)
                            } else {
                                None
                            },
                            hide: false,
                        }
                        &&& final(self).last_window == Some(b)
                        &&& final(self).click_was_down == click_down
                    }
                },
                None => {
                    &&& r == PickStep::Continue { show: None, hide: old(self).last_window is Some }
                    &&& final(self).last_window is None
                    &&& final(self).click_was_down == click_down
                },
            },
    {
        if escape {
            return PickStep::Finish(OverlayResult::Cancelled);
        }
        match hit {
            Some(w) => {
                let bounds = (w.left, w.top, w.right, w.bottom);
                let changed = match self.last_window {
                    Some(b) => !(b.0 == bounds.0 && b.1 == bounds.1 && b.2 == bounds.2 && b.3
                        == bounds.3),
                    None => true,
                };
                if click_down && !self.click_was_down {
                    return PickStep::Finish(
                        OverlayResult::Window {
                            left: w.left,
                            top: w.top,
                            right: w.right,
                            bottom: w.bottom,
                            shift,
                            alt,
                        },
                    );
                }
                self.last_window = Some(bounds);
                self.click_was_down = click_down;
                if changed {
                    PickStep::Continue { show: Some(w), hide: false }
                } else {
                    PickStep::Continue { show: None, hide: false }
                }
            },
            None => {
                let hide = self.last_window.is_some();
                self.last_window = None;
                self.click_was_down = click_down;
                PickStep::Continue { show: None, hide }
            },
        }
    }
}

} // verus!
