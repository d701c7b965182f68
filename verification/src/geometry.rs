//! Screen geometry: monitor hit-testing, virtual desktop bounds, region
//! clamping and coordinate conversion.

use vstd::prelude::*;
use crate::annotation::RgbaFrame;
use crate::bytes::push_range;
use crate::error::AppError;
use crate::text::{decimal, push_decimal};
use crate::recording::pipeline::RecordingRegion;

verus! {

/// Monitor info for select_screen mode.
#[derive(Debug, PartialEq, Eq)]
pub struct MonitorRect {
    /// Screen-space bounds.
    pub x: i32,
    pub y: i32,
    pub w: u32,
    pub h: u32,
    pub index: usize,
}

impl Clone for MonitorRect {
    fn clone(&self) -> (r: Self)
        ensures
            r == *self,
    {
        MonitorRect { x: self.x, y: self.y, w: self.w, h: self.h, index: self.index }
    }
}

/// Bounds and position in the monitor list of one monitor.
#[derive(Debug, PartialEq, Eq)]
pub struct MonitorInfo {
    pub index: usize,
    pub x: i32,
    pub y: i32,
    pub width: u32,
    pub height: u32,
}

impl Clone for MonitorInfo {
    fn clone(&self) -> (r: Self)
        ensures
            r == *self,
    {
        MonitorInfo {
            index: self.index,
            x: self.x,
            y: self.y,
            width: self.width,
            height: self.height,
        }
    }
}

/// One monitor as the OS lists it; a value that could not be read is `None`.
#[derive(Debug, PartialEq, Eq)]
pub struct ListedMonitor {
    pub x: Option<i32>,
    pub y: Option<i32>,
    pub width: Option<u32>,
    pub height: Option<u32>,
}

/// Virtual desktop bounds (no image capture -- fast).
#[derive(Debug, PartialEq, Eq)]
pub struct DesktopBounds {
    pub x: i32,
    pub y: i32,
    pub width: u32,
    pub height: u32,
}

/// The right/bottom edges of a monitor rectangle stay within `i32`.
pub open spec fn monitor_rect_fits(m: MonitorRect) -> bool {
    &&& i32::MIN <= m.x + (m.w as i32) <= i32::MAX
    &&& i32::MIN <= m.y + (m.h as i32) <= i32::MAX
}

/// The point lies inside the monitor (half-open on the right and bottom).
pub open spec fn monitor_contains(m: MonitorRect, cx: i32, cy: i32) -> bool {
    cx >= m.x && cx < m.x + (m.w as i32) && cy >= m.y && cy < m.y + (m.h as i32)
}

/// The first monitor (by list position) that contains the point.
pub open spec fn spec_monitor_at(ms: Seq<MonitorRect>, cx: i32, cy: i32) -> Option<usize> {
    if exists|i: int| 0 <= i < ms.len() && monitor_contains(#[trigger] ms[i], cx, cy) {
        Some(
            (choose|i: int|
                0 <= i < ms.len() && monitor_contains(#[trigger] ms[i], cx, cy) && forall|j: int|
                    0 <= j < i ==> !monitor_contains(#[trigger] ms[j], cx, cy)) as usize,
        )
    } else {
        None
    }
}

/// Position in `monitors` of the first monitor containing `(cx, cy)`.
pub fn monitor_at(monitors: &[MonitorRect], cx: i32, cy: i32) -> (r: Option<usize>)
    requires
        forall|i: int| 0 <= i < monitors@.len() ==> monitor_rect_fits(#[trigger] monitors@[i]),
    ensures
        match r {
            Some(i) => i < monitors@.len() && monitor_contains(monitors@[i as int], cx, cy)
                && forall|j: int| 0 <= j < i ==> !monitor_contains(#[trigger] monitors@[j], cx, cy),
            None => forall|j: int|
                0 <= j < monitors@.len() ==> !monitor_contains(#[trigger] monitors@[j], cx, cy),
        },
        r == spec_monitor_at(monitors@, cx, cy),
{
    let mut i: usize = 0;
    while i < monitors.len()
        invariant
            i <= monitors@.len(),
            forall|k: int| 0 <= k < monitors@.len() ==> monitor_rect_fits(#[trigger] monitors@[k]),
            forall|j: int| 0 <= j < i ==> !monitor_contains(#[trigger] monitors@[j], cx, cy),
        decreases monitors@.len() - i,
    {
        let m = &monitors[i];
        assert(monitor_rect_fits(monitors@[i as int]));
        if cx >= m.x && cx < m.x + m.w as i32 && cy >= m.y && cy < m.y + m.h as i32 {
            proof {
                let ms = monitors@;
                assert(monitor_contains(ms[i as int], cx, cy));
                let c = choose|k: int|
                    0 <= k < ms.len() && monitor_contains(#[trigger] ms[k], cx, cy) && forall|j: int|
                        0 <= j < k ==> !monitor_contains(#[trigger] ms[j], cx, cy);
                if c < i {
                } else if c > i {
                    assert(!monitor_contains(ms[i as int], cx, cy));
                }
            }
            return Some(i);
        }
        i += 1;
    }
    None
}

// -- Virtual desktop bounds --

pub open spec fn right_of(m: MonitorInfo) -> int {
    m.x + (m.width as i32)
}

pub open spec fn bottom_of(m: MonitorInfo) -> int {
    m.y + (m.height as i32)
}

/// Smallest left edge (`i32::MAX` for no monitors).
pub open spec fn min_left(ms: Seq<MonitorInfo>) -> int
    decreases ms.len(),
{
    if ms.len() == 0 {
        i32::MAX as int
    } else {
        let r = min_left(ms.drop_last());
        if ms.last().x < r { ms.last().x as int } else { r }
    }
}

/// Smallest top edge (`i32::MAX` for no monitors).
pub open spec fn min_top(ms: Seq<MonitorInfo>) -> int
    decreases ms.len(),
{
    if ms.len() == 0 {
        i32::MAX as int
    } else {
        let r = min_top(ms.drop_last());
        if ms.last().y < r { ms.last().y as int } else { r }
    }
}

/// Largest right edge (`i32::MIN` for no monitors).
pub open spec fn max_right(ms: Seq<MonitorInfo>) -> int
    decreases ms.len(),
{
    if ms.len() == 0 {
        i32::MIN as int
    } else {
        let r = max_right(ms.drop_last());
        if right_of(ms.last()) > r { right_of(ms.last()) } else { r }
    }
}

/// Largest bottom edge (`i32::MIN` for no monitors).
pub open spec fn max_bottom(ms: Seq<MonitorInfo>) -> int
    decreases ms.len(),
{
    if ms.len() == 0 {
        i32::MIN as int
    } else {
        let r = max_bottom(ms.drop_last());
        if bottom_of(ms.last()) > r { bottom_of(ms.last()) } else { r }
    }
}

/// Every monitor's right and bottom edges fit in `i32`, and so do the
/// extents of their bounding box.
pub open spec fn monitors_fit(ms: Seq<MonitorInfo>) -> bool {
    &&& forall|i: int|
        0 <= i < ms.len() ==> i32::MIN <= #[trigger] right_of(ms[i]) <= i32::MAX && i32::MIN
            <= bottom_of(ms[i]) <= i32::MAX
    &&& ms.len() > 1 ==> max_right(ms) - min_left(ms) <= i32::MAX && max_bottom(ms) - min_top(
        ms,
    ) <= i32::MAX
}

/// The virtual desktop: a single monitor's own bounds, or the bounding box of
/// all monitors.
pub open spec fn spec_desktop_bounds(ms: Seq<MonitorInfo>) -> DesktopBounds {
    if ms.len() == 1 {
        DesktopBounds { x: ms[0].x, y: ms[0].y, width: ms[0].width, height: ms[0].height }
    } else {
        DesktopBounds {
            x: min_left(ms) as i32,
            y: min_top(ms) as i32,
            width: (max_right(ms) - min_left(ms)) as u32,
            height: (max_bottom(ms) - min_top(ms)) as u32,
        }
    }
}

proof fn lemma_extents_in_range(ms: Seq<MonitorInfo>)
    requires
        forall|i: int|
            0 <= i < ms.len() ==> i32::MIN <= #[trigger] right_of(ms[i]) <= i32::MAX && i32::MIN
                <= bottom_of(ms[i]) <= i32::MAX,
    ensures
        i32::MIN <= min_left(ms) <= i32::MAX,
        i32::MIN <= min_top(ms) <= i32::MAX,
        i32::MIN <= max_right(ms) <= i32::MAX,
        i32::MIN <= max_bottom(ms) <= i32::MAX,
    decreases ms.len(),
{
    if ms.len() > 0 {
        lemma_extents_in_range(ms.drop_last());
        assert(right_of(ms[ms.len() - 1]) <= i32::MAX);
    }
}

proof fn lemma_extents_bound(ms: Seq<MonitorInfo>, i: int)
    requires
        0 <= i < ms.len(),
    ensures
        min_left(ms) <= ms[i].x,
        min_top(ms) <= ms[i].y,
        right_of(ms[i]) <= max_right(ms),
        bottom_of(ms[i]) <= max_bottom(ms),
    decreases ms.len(),
{
    if i < ms.len() - 1 {
        lemma_extents_bound(ms.drop_last(), i);
    }
}

/// The virtual desktop of several monitors covers each of them: every
/// monitor's rectangle lies inside the bounds.
pub proof fn law_desktop_covers_monitors(ms: Seq<MonitorInfo>, i: int)
    requires
        monitors_fit(ms),
        ms.len() > 1,
        0 <= i < ms.len(),
    ensures
        ({
            let b = spec_desktop_bounds(ms);
            &&& b.x <= ms[i].x
            &&& b.y <= ms[i].y
            &&& right_of(ms[i]) <= b.x + b.width
            &&& bottom_of(ms[i]) <= b.y + b.height
        }),
{
    lemma_extents_bound(ms, i);
    lemma_extents_in_range(ms);
    lemma_extents_bound(ms, 0);
}

/// Virtual desktop bounds of the given monitors.
pub fn desktop_bounds_of(monitors: &[MonitorInfo]) -> (r: Result<DesktopBounds, AppError>)
    requires
        monitors_fit(monitors@),
    ensures
        monitors@.len() == 0 ==> (r matches Err(AppError::Capture(m)) && m@
            == "No monitors found"@),
        monitors@.len() > 0 ==> r == Ok::<DesktopBounds, AppError>(
            spec_desktop_bounds(monitors@),
        ),
{
    if monitors.len() == 0 {
        return Err(AppError::Capture(String::from_str("No monitors found")));
    }
    if monitors.len() == 1 {
        let m = &monitors[0];
        return Ok(DesktopBounds { x: m.x, y: m.y, width: m.width, height: m.height });
    }
    let ghost ms = monitors@;
    let mut min_x = i32::MAX;
    let mut min_y = i32::MAX;
    let mut max_x = i32::MIN;
    let mut max_y = i32::MIN;
    let mut i: usize = 0;
    while i < monitors.len()
        invariant
            ms == monitors@,
            monitors_fit(ms),
            i <= ms.len(),
            min_x == min_left(ms.take(i as int)),
            min_y == min_top(ms.take(i as int)),
            max_x == max_right(ms.take(i as int)),
            max_y == max_bottom(ms.take(i as int)),
        decreases ms.len() - i,
    {
        let m = &monitors[i];
        assert(ms.take(i + 1).drop_last() =~= ms.take(i as int));
        assert(ms.take(i + 1).last() == ms[i as int]);
        assert(i32::MIN <= right_of(ms[i as int]) <= i32::MAX);
        let x = m.x;
        let y = m.y;
        let w = m.width as i32;
        let h = m.height as i32;
        min_x = if x < min_x { x } else { min_x };
        min_y = if y < min_y { y } else { min_y };
        max_x = if x + w > max_x { x + w } else { max_x };
        max_y = if y + h > max_y { y + h } else { max_y };
        i += 1;
    }
    assert(ms.take(i as int) =~= ms);
    Ok(DesktopBounds {
        x: min_x,
        y: min_y,
        width: (max_x - min_x) as u32,
        height: (max_y - min_y) as u32,
    })
}

/// Captures of the whole desktop are refused above this many pixels
/// (about 256 MB of RGBA).
pub const MAX_CAPTURE_PIXELS: u64 = 64_000_000;

/// Guards the stitched desktop canvas against unreasonable allocations.
pub fn check_canvas_size(total_w: u32, total_h: u32) -> (r: Result<(), AppError>)
    ensures
        total_w * total_h <= MAX_CAPTURE_PIXELS ==> r is Ok,
        total_w * total_h > MAX_CAPTURE_PIXELS ==> (r matches Err(e) && e is Capture && e.message()
            == "Virtual desktop too large to capture ("@ + decimal(total_w as nat) + "x"@ + decimal(
            total_h as nat,
        ) + ")"@),
{
    assert((total_w as u64) * (total_h as u64) <= u64::MAX) by (nonlinear_arith)
        requires
            total_w <= u32::MAX,
            total_h <= u32::MAX,
    ;
    if (total_w as u64) * (total_h as u64) > MAX_CAPTURE_PIXELS {
        let mut m = String::from_str("Virtual desktop too large to capture (");
        push_decimal(&mut m, total_w as u64);
        m.append("x");
        push_decimal(&mut m, total_h as u64);
        m.append(")");
        return Err(AppError::Capture(m));
    }
    Ok(())
}

/// The cursor position, or the origin when it could not be read.
pub fn get_cursor_position_public(cursor: Option<(i32, i32)>) -> (r: (i32, i32))
    ensures
        r == (match cursor {
            Some(p) => p,
            None => (0i32, 0i32),
        }),
{
    match cursor {
        Some(p) => p,
        None => (0, 0),
    }
}

/// The listed monitor's geometry is readable and holds the point.
pub open spec fn listed_contains(m: ListedMonitor, cx: i32, cy: i32) -> bool {
    m.x is Some && m.y is Some && m.width is Some && m.height is Some && cx >= m.x->0 && cx < m.x->0
        + (m.width->0 as i32) && cy >= m.y->0 && cy < m.y->0 + (m.height->0 as i32)
}

/// The right and bottom edges of a listed monitor fit in `i32`.
pub open spec fn listed_monitor_fits(m: ListedMonitor) -> bool {
    (m.x matches Some(x) && m.width matches Some(w) ==> i32::MIN <= x + (w as i32) <= i32::MAX) && (
    m.y matches Some(y) && m.height matches Some(h) ==> i32::MIN <= y + (h as i32) <= i32::MAX)
}

/// Position of the monitor under the cursor: the first listed monitor that
/// holds it, or the first monitor when none does.
pub fn monitor_index_at(monitors: &[ListedMonitor], cx: i32, cy: i32) -> (r: usize)
    requires
        forall|i: int| 0 <= i < monitors@.len() ==> listed_monitor_fits(#[trigger] monitors@[i]),
    ensures
        (exists|i: int| 0 <= i < monitors@.len() && listed_contains(#[trigger] monitors@[i], cx, cy))
            ==> (r < monitors@.len() && listed_contains(monitors@[r as int], cx, cy) && forall|j: int|
            0 <= j < r ==> !listed_contains(#[trigger] monitors@[j], cx, cy)),
        !(exists|i: int| 0 <= i < monitors@.len() && listed_contains(#[trigger] monitors@[i], cx, cy))
            ==> r == 0,
{
    let mut i: usize = 0;
    while i < monitors.len()
        invariant
            i <= monitors@.len(),
            forall|k: int| 0 <= k < monitors@.len() ==> listed_monitor_fits(#[trigger] monitors@[k]),
            forall|j: int| 0 <= j < i ==> !listed_contains(#[trigger] monitors@[j], cx, cy),
        decreases monitors@.len() - i,
    {
        let m = &monitors[i];
        assert(listed_monitor_fits(monitors@[i as int]));
        if let (Some(mx), Some(my), Some(mw), Some(mh)) = (m.x, m.y, m.width, m.height) {
            if cx >= mx && cx < mx + mw as i32 && cy >= my && cy < my + mh as i32 {
                return i;
            }
        }
        i += 1;
    }
    0
}

/// A monitor index must name a listed monitor.
pub fn check_monitor_index(index: usize, count: usize) -> (r: Result<(), AppError>)
    ensures
        index < count ==> r is Ok,
        index >= count ==> (r matches Err(e) && e is Capture && e.message() == "Monitor index "@
            + decimal(index as nat) + " out of range"@),
{
    if index >= count {
        let mut m = String::from_str("Monitor index ");
        push_decimal(&mut m, index as u64);
        m.append(" out of range");
        return Err(AppError::Capture(m));
    }
    Ok(())
}

// -- Cropping --

/// The crop rectangle clamped to a `img_w` x `img_h` image: the origin moved
/// inside the image, the size trimmed to what remains.
pub open spec fn clamped_crop(img_w: u32, img_h: u32, x: u32, y: u32, w: u32, h: u32) -> (
    u32,
    u32,
    u32,
    u32,
) {
    let cx = if x < img_w - 1 { x } else { if img_w == 0 { 0u32 } else { (img_w - 1) as u32 } };
    let cy = if y < img_h - 1 { y } else { if img_h == 0 { 0u32 } else { (img_h - 1) as u32 } };
    let rw = if img_w > cx { (img_w - cx) as u32 } else { 0u32 };
    let rh = if img_h > cy { (img_h - cy) as u32 } else { 0u32 };
    (cx, cy, if w < rw { w } else { rw }, if h < rh { h } else { rh })
}

/// A clamped crop never reaches outside the image: cropping with it cannot
/// go out of bounds, and it keeps the requested size where that fits.
pub proof fn law_clamped_crop_inside(img_w: u32, img_h: u32, x: u32, y: u32, w: u32, h: u32)
    ensures
        ({
            let c = clamped_crop(img_w, img_h, x, y, w, h);
            &&& c.0 + c.2 <= img_w || img_w == 0
            &&& c.1 + c.3 <= img_h || img_h == 0
            &&& c.2 <= w && c.3 <= h
            &&& (x < img_w && x + w <= img_w) ==> c.0 == x && c.2 == w
            &&& (y < img_h && y + h <= img_h) ==> c.1 == y && c.3 == h
        }),
{
}

/// Clamp a crop region to the image bounds. Fails when nothing remains.
pub fn safe_crop_region(img_w: u32, img_h: u32, x: u32, y: u32, w: u32, h: u32) -> (r: Result<
    (u32, u32, u32, u32),
    AppError,
>)
    ensures
        ({
            let c = clamped_crop(img_w, img_h, x, y, w, h);
            &&& (c.2 == 0 || c.3 == 0) ==> (r matches Err(AppError::Capture(m)) && m@
                == "Crop region outside image bounds"@)
            &&& (c.2 != 0 && c.3 != 0) ==> r == Ok::<(u32, u32, u32, u32), AppError>(c)
        }),
{
    let x = x.min(img_w.saturating_sub(1));
    let y = y.min(img_h.saturating_sub(1));
    let w = w.min(img_w.saturating_sub(x));
    let h = h.min(img_h.saturating_sub(y));
    if w == 0 || h == 0 {
        return Err(AppError::Capture(String::from_str("Crop region outside image bounds")));
    }
    Ok((x, y, w, h))
}

/// Byte `b` of pixel `(i, j)` of an RGBA image whose rows are `width`
/// pixels wide.
pub open spec fn pixel_byte(s: Seq<u8>, width: u32, i: int, j: int, b: int) -> u8 {
    s[(j * width + i) * 4 + b]
}

/// Crops an RGBA image to the requested rectangle clamped to its bounds
/// (see `clamped_crop`); fails when nothing remains. Each pixel of the crop
/// is the image's pixel at the same place within the clamped rectangle.
pub fn safe_crop(img: &RgbaFrame, x: u32, y: u32, w: u32, h: u32) -> (r: Result<RgbaFrame, AppError>)
    requires
        img.pixels@.len() == img.width * img.height * 4,
    ensures
        ({
            let c = clamped_crop(img.width, img.height, x, y, w, h);
            &&& (c.2 == 0 || c.3 == 0) ==> (r matches Err(AppError::Capture(m)) && m@
                == "Crop region outside image bounds"@)
            &&& (c.2 != 0 && c.3 != 0) ==> (r matches Ok(f) && f.width == c.2 && f.height == c.3
                && f.pixels@.len() == c.2 * c.3 * 4 && forall|i: int, j: int, b: int|
                0 <= i < c.2 && 0 <= j < c.3 && 0 <= b < 4 ==> #[trigger] pixel_byte(
                f.pixels@,
                c.2,
                i,
                j,
                b,
            ) == pixel_byte(img.pixels@, img.width, c.0 + i, c.1 + j, b))
        }),
{
    let (cx, cy, cw, ch) = match safe_crop_region(img.width, img.height, x, y, w, h) {
        Ok(c) => c,
        Err(e) => return Err(e),
    };
    let iw = img.width;
    let ih = img.height;
    let src = img.pixels.as_slice();
    let total = src.len();
    assert(cx + cw <= iw && cy + ch <= ih);
    let ghost s = src@;
    let mut out: Vec<u8> = Vec::new();
    let mut j: u32 = 0;
    while j < ch
        invariant
            s == src@,
            total == s.len(),
            s.len() == iw * ih * 4,
            cx + cw <= iw,
            cy + ch <= ih,
            cw > 0,
            j <= ch,
            out@.len() == j * cw * 4,
            forall|i: int, jj: int, b: int|
                0 <= i < cw && 0 <= jj < j && 0 <= b < 4 ==> #[trigger] pixel_byte(
                    out@,
                    cw,
                    i,
                    jj,
                    b,
                ) == pixel_byte(s, iw, cx + i, cy + jj, b),
        decreases ch - j,
    {
        let row = (cy + j) as usize;
        assert((row * iw + iw) * 4 <= iw * ih * 4) by (nonlinear_arith)
            requires
                row < ih,
        ;
        let start: usize = (row * (iw as usize) + cx as usize) * 4;
        let len: usize = cw as usize * 4;
        let ghost before = out@;
        push_range(&mut out, src, start, len);
        assert((j + 1) * cw * 4 == j * cw * 4 + cw * 4) by (nonlinear_arith);
        assert forall|i: int, jj: int, b: int|
            0 <= i < cw && 0 <= jj < j + 1 && 0 <= b < 4 implies #[trigger] pixel_byte(
                out@,
                cw,
                i,
                jj,
                b,
            ) == pixel_byte(s, iw, cx + i, cy + jj, b) by {
            if jj < j {
                assert((jj * cw + i) * 4 + b < j * cw * 4) by (nonlinear_arith)
                    requires
                        0 <= i < cw,
                        0 <= jj < j,
                        0 <= b < 4,
                ;
                assert(out@[(jj * cw + i) * 4 + b] == before[(jj * cw + i) * 4 + b]);
                assert(pixel_byte(before, cw, i, jj, b) == pixel_byte(s, iw, cx + i, cy + jj, b));
            } else {
                assert((jj * cw + i) * 4 + b == j * cw * 4 + (i * 4 + b)) by (nonlinear_arith)
                    requires
                        jj == j,
                ;
                assert(((cy + jj) * iw + cx + i) * 4 + b == start + (i * 4 + b)) by (nonlinear_arith)
                    requires
                        jj == j,
                        row == cy + j,
                        start == (row * iw + cx) * 4,
                ;
                assert(i * 4 + b < len);
                assert(out@[j * cw * 4 + (i * 4 + b)] == s[start + (i * 4 + b)]);
                assert(pixel_byte(out@, cw, i, jj, b) == out@[j * cw * 4 + (i * 4 + b)]);
                assert(pixel_byte(s, iw, cx + i, cy + jj, b) == s[start + (i * 4 + b)]);
            }
        }
        j += 1;
    }
    assert(ch * cw * 4 == cw * ch * 4) by (nonlinear_arith);
    Ok(RgbaFrame { width: cw, height: ch, pixels: out })
}

// -- OCR region --

/// A selection in screen coordinates, as pixel coordinates of a capture whose
/// top-left corner is at `(bx, by)`: corners ordered, negatives clamped to 0.
pub open spec fn spec_ocr_image_rect(x1: i32, y1: i32, x2: i32, y2: i32, bx: i32, by: i32) -> (
    u32,
    u32,
    u32,
    u32,
) {
    let l = if x1 < x2 { x1 } else { x2 };
    let t = if y1 < y2 { y1 } else { y2 };
    let r = if x1 > x2 { x1 } else { x2 };
    let b = if y1 > y2 { y1 } else { y2 };
    (
        (if l - bx > 0 { l - bx } else { 0 }) as u32,
        (if t - by > 0 { t - by } else { 0 }) as u32,
        (if r - bx > 0 { r - bx } else { 0 }) as u32,
        (if b - by > 0 { b - by } else { 0 }) as u32,
    )
}

/// Convert a screen selection to capture-image coordinates.
pub fn ocr_image_rect(x1: i32, y1: i32, x2: i32, y2: i32, bx: i32, by: i32) -> (r: (
    u32,
    u32,
    u32,
    u32,
))
    ensures
        r == spec_ocr_image_rect(x1, y1, x2, y2, bx, by),
{
    let l = x1.min(x2) as i64 - bx as i64;
    let t = y1.min(y2) as i64 - by as i64;
    let r = x1.max(x2) as i64 - bx as i64;
    let b = y1.max(y2) as i64 - by as i64;
    (
        (if l > 0 { l } else { 0 }) as u32,
        (if t > 0 { t } else { 0 }) as u32,
        (if r > 0 { r } else { 0 }) as u32,
        (if b > 0 { b } else { 0 }) as u32,
    )
}

// -- Multi-monitor recording --

/// Pre-computed overlap between a monitor and the recording region.
#[derive(Debug, PartialEq, Eq)]
pub struct OverlapRect {
    pub monitor_idx: usize,
    pub src_x: u32,
    pub src_y: u32,
    pub src_w: u32,
    pub src_h: u32,
    pub dst_x: u32,
    pub dst_y: u32,
}


/// Top-left corner of the virtual desktop: the smallest monitor coordinates,
/// `(0, 0)` for no monitors.
pub fn desktop_origin(monitors: &[MonitorInfo]) -> (r: (i32, i32))
    ensures
        monitors@.len() == 0 ==> r == (0i32, 0i32),
        monitors@.len() > 0 ==> r == (min_left(monitors@) as i32, min_top(monitors@) as i32),
{
    let ghost ms = monitors@;
    let mut min_x = i32::MAX;
    let mut min_y = i32::MAX;
    let mut i: usize = 0;
    while i < monitors.len()
        invariant
            ms == monitors@,
            i <= ms.len(),
            min_x == min_left(ms.take(i as int)),
            min_y == min_top(ms.take(i as int)),
        decreases ms.len() - i,
    {
        assert(ms.take(i + 1).drop_last() =~= ms.take(i as int));
        assert(ms.take(i + 1).last() == ms[i as int]);
        let m = &monitors[i];
        min_x = if m.x < min_x { m.x } else { min_x };
        min_y = if m.y < min_y { m.y } else { min_y };
        i += 1;
    }
    assert(ms.take(i as int) =~= ms);
    if monitors.len() == 0 {
        (0, 0)
    } else {
        (min_x, min_y)
    }
}

/// The part of monitor `i` covered by the region whose absolute edges are
/// `left`, `top`, `right`, `bottom`: source pixels in the monitor and the
/// destination position in the region; `None` when they do not overlap.
pub open spec fn spec_overlap(
    m: MonitorInfo,
    i: int,
    left: int,
    top: int,
    right: int,
    bottom: int,
) -> Option<OverlapRect> {
    let ol = if left > m.x { left } else { m.x as int };
    let ot = if top > m.y { top } else { m.y as int };
    let or_ = if right < right_of(m) { right } else { right_of(m) };
    let ob = if bottom < bottom_of(m) { bottom } else { bottom_of(m) };
    if or_ > ol && ob > ot {
        Some(
            OverlapRect {
                monitor_idx: i as usize,
                src_x: (ol - m.x) as u32,
                src_y: (ot - m.y) as u32,
                src_w: (or_ - ol) as u32,
                src_h: (ob - ot) as u32,
                dst_x: (ol - left) as u32,
                dst_y: (ot - top) as u32,
            },
        )
    } else {
        None
    }
}

/// The overlaps of all monitors with the region, in monitor order.
pub open spec fn spec_overlaps(
    ms: Seq<MonitorInfo>,
    left: int,
    top: int,
    right: int,
    bottom: int,
) -> Seq<OverlapRect>
    decreases ms.len(),
{
    if ms.len() == 0 {
        seq![]
    } else {
        let rest = spec_overlaps(ms.drop_last(), left, top, right, bottom);
        match spec_overlap(ms.last(), ms.len() - 1, left, top, right, bottom) {
            Some(o) => rest.push(o),
            None => rest,
        }
    }
}

/// The region's absolute edges and every monitor's edges fit in `i32`.
pub open spec fn overlap_inputs_fit(
    ms: Seq<MonitorInfo>,
    r: RecordingRegion,
    desk_x: i32,
    desk_y: i32,
) -> bool {
    &&& (r.x as i32) + desk_x + (r.width as i32) <= i32::MAX
    &&& (r.y as i32) + desk_y + (r.height as i32) <= i32::MAX
    &&& i32::MIN <= (r.x as i32) + desk_x <= i32::MAX
    &&& i32::MIN <= (r.y as i32) + desk_y <= i32::MAX
    &&& i32::MIN <= (r.x as i32) + desk_x + (r.width as i32)
    &&& i32::MIN <= (r.y as i32) + desk_y + (r.height as i32)
    &&& forall|i: int|
        0 <= i < ms.len() ==> i32::MIN <= #[trigger] right_of(ms[i]) <= i32::MAX && i32::MIN
            <= bottom_of(ms[i]) <= i32::MAX
}

/// Pre-compute the overlaps between each monitor and the recording region.
/// Region coords are overlay-relative = desktop-origin-relative.
pub fn compute_overlaps(
    monitors: &[MonitorInfo],
    r: &RecordingRegion,
    desk_x: i32,
    desk_y: i32,
) -> (res: Vec<OverlapRect>)
    requires
        overlap_inputs_fit(monitors@, *r, desk_x, desk_y),
    ensures
        res@ == spec_overlaps(
            monitors@,
            (r.x as i32) + desk_x,
            (r.y as i32) + desk_y,
            (r.x as i32) + desk_x + (r.width as i32),
            (r.y as i32) + desk_y + (r.height as i32),
        ),
{
    let reg_abs_x = r.x as i32 + desk_x;
    let reg_abs_y = r.y as i32 + desk_y;
    let reg_abs_r = reg_abs_x + r.width as i32;
    let reg_abs_b = reg_abs_y + r.height as i32;
    let ghost ms = monitors@;
    let mut out: Vec<OverlapRect> = Vec::new();
    let mut i: usize = 0;
    while i < monitors.len()
        invariant
            ms == monitors@,
            i <= ms.len(),
            overlap_inputs_fit(ms, *r, desk_x, desk_y),
            reg_abs_x == (r.x as i32) + desk_x,
            reg_abs_y == (r.y as i32) + desk_y,
            reg_abs_r == (r.x as i32) + desk_x + (r.width as i32),
            reg_abs_b == (r.y as i32) + desk_y + (r.height as i32),
            out@ == spec_overlaps(
                ms.take(i as int),
                reg_abs_x as int,
                reg_abs_y as int,
                reg_abs_r as int,
                reg_abs_b as int,
            ),
        decreases ms.len() - i,
    {
        assert(ms.take(i + 1).drop_last() =~= ms.take(i as int));
        assert(ms.take(i + 1).last() == ms[i as int]);
        assert(i32::MIN <= right_of(ms[i as int]) <= i32::MAX);
        let m = &monitors[i];
        let ol = reg_abs_x.max(m.x);
        let ot = reg_abs_y.max(m.y);
        let or_ = reg_abs_r.min(m.x + m.width as i32);
        let ob = reg_abs_b.min(m.y + m.height as i32);
        if or_ > ol && ob > ot {
            out.push(
                OverlapRect {
                    monitor_idx: i,
                    src_x: (ol - m.x) as u32,
                    src_y: (ot - m.y) as u32,
                    src_w: (or_ - ol) as u32,
                    src_h: (ob - ot) as u32,
                    dst_x: (ol - reg_abs_x) as u32,
                    dst_y: (ot - reg_abs_y) as u32,
                },
            );
        }
        i += 1;
    }
    assert(ms.take(i as int) =~= ms);
    out
}

} // verus!
