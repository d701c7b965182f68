//! Live overlay pixel buffer: a dark overlay with a clear cutout for region
//! selection, a highlight around the hovered window, or monitor outlines.
//! Pixels are 32-bit BGRA; presenting the buffer on screen is done by the
//! platform layer.

use vstd::prelude::*;
use crate::protocol::CaptureMode;

verus! {

/// A 32-bit pixel from its blue, green, red and alpha bytes (little-endian).
pub open spec fn spec_bgra(b: u8, g: u8, r: u8, a: u8) -> u32 {
    (b as int + g as int * 0x100 + r as int * 0x10000 + a as int * 0x1000000) as u32
}

pub fn bgra(b: u8, g: u8, r: u8, a: u8) -> (p: u32)
    ensures
        p == spec_bgra(b, g, r, a),
{
    b as u32 + g as u32 * 0x100 + r as u32 * 0x10000 + a as u32 * 0x1000000
}

pub struct LiveRenderer {
    width: u32,
    height: u32,
    hwnd: isize,
    buffer: Vec<u32>,
    dark_pixel: u32,
    /// Fully transparent (region mode cutout — shows live desktop).
    clear_pixel: u32,
    /// Nearly transparent but still catches mouse events (window mode highlight).
    highlight_pixel: u32,
    border_pixel: u32,
    mode: CaptureMode,
    prev_dirty: Option<(i32, i32, i32, i32)>,
}

/// Column of pixel `i` in a buffer `w` pixels wide.
pub open spec fn col(i: int, w: u32) -> int {
    i % (w as int)
}

/// Row of pixel `i` in a buffer `w` pixels wide.
pub open spec fn row(i: int, w: u32) -> int {
    i / (w as int)
}

/// Pixel `i` lies in the rectangle `x1..x2` x `y1..y2` clipped to the
/// `w` x `h` buffer.
pub open spec fn in_fill(i: int, w: u32, h: u32, x1: i32, y1: i32, x2: i32, y2: i32) -> bool {
    &&& w > 0
    &&& (if x1 > 0 { x1 as int } else { 0 }) <= col(i, w) < (if x2 < w { x2 as int } else { w as int })
    &&& (if y1 > 0 { y1 as int } else { 0 }) <= row(i, w) < (if y2 < h { y2 as int } else { h as int })
}

/// The buffer after filling the clipped rectangle with `p`.
pub open spec fn spec_fill(
    buf: Seq<u32>,
    w: u32,
    h: u32,
    x1: i32,
    y1: i32,
    x2: i32,
    y2: i32,
    p: u32,
) -> Seq<u32> {
    Seq::new(buf.len(), |i: int| if in_fill(i, w, h, x1, y1, x2, y2) { p } else { buf[i] })
}

/// Filling the rectangle neither loops forever nor slices backwards: the
/// bottom edge is not negative, and when rows are covered the clipped left
/// edge does not pass the (non-negative) clipped right edge.
pub open spec fn fill_ok(w: u32, h: u32, x1: i32, y1: i32, x2: i32, y2: i32) -> bool {
    &&& y2 >= 0
    &&& (if y1 > 0 { y1 as int } else { 0 }) < (if y2 < h { y2 as int } else { h as int }) ==> {
        &&& x2 >= 0
        &&& (if x1 > 0 { x1 as int } else { 0 }) <= (if x2 < w { x2 as int } else { w as int })
    }
}

/// The four strips of a border `bw` wide drawn inside the rectangle.
pub open spec fn spec_border(
    buf: Seq<u32>,
    w: u32,
    h: u32,
    x1: i32,
    y1: i32,
    x2: i32,
    y2: i32,
    bw: i32,
    p: u32,
) -> Seq<u32> {
    let top = spec_fill(buf, w, h, x1, y1, x2, (y1 + bw) as i32, p);
    let bottom = spec_fill(top, w, h, x1, (y2 - bw) as i32, x2, y2, p);
    let left = spec_fill(bottom, w, h, x1, (y1 + bw) as i32, (x1 + bw) as i32, (y2 - bw) as i32, p);
    spec_fill(left, w, h, (x2 - bw) as i32, (y1 + bw) as i32, x2, (y2 - bw) as i32, p)
}

/// The border can be drawn: its edges fit in `i32` and each strip can be filled.
pub open spec fn border_ok(w: u32, h: u32, x1: i32, y1: i32, x2: i32, y2: i32, bw: i32) -> bool {
    &&& i32::MIN <= y1 + bw <= i32::MAX
    &&& i32::MIN <= y2 - bw <= i32::MAX
    &&& i32::MIN <= x1 + bw <= i32::MAX
    &&& i32::MIN <= x2 - bw <= i32::MAX
    &&& fill_ok(w, h, x1, y1, x2, (y1 + bw) as i32)
    &&& fill_ok(w, h, x1, (y2 - bw) as i32, x2, y2)
    &&& fill_ok(w, h, x1, (y1 + bw) as i32, (x1 + bw) as i32, (y2 - bw) as i32)
    &&& fill_ok(w, h, (x2 - bw) as i32, (y1 + bw) as i32, x2, (y2 - bw) as i32)
}


/// Restoring the previously drawn rectangle to dark is safe.
pub open spec fn opt_fill_ok(w: u32, h: u32, r: Option<(i32, i32, i32, i32)>) -> bool {
    match r {
        Some((x1, y1, x2, y2)) => fill_ok(w, h, x1, y1, x2, y2),
        None => true,
    }
}

/// The buffer with the previously drawn rectangle restored to `dark`.
pub open spec fn spec_restore(
    buf: Seq<u32>,
    w: u32,
    h: u32,
    prev: Option<(i32, i32, i32, i32)>,
    dark: u32,
) -> Seq<u32> {
    match prev {
        Some((x1, y1, x2, y2)) => spec_fill(buf, w, h, x1, y1, x2, y2, dark),
        None => buf,
    }
}

/// A rectangle can be filled and given a border `bw` wide.
pub open spec fn opt_rect_ok(w: u32, h: u32, r: Option<(i32, i32, i32, i32)>, bw: i32) -> bool {
    match r {
        Some((x1, y1, x2, y2)) => fill_ok(w, h, x1, y1, x2, y2) && border_ok(
            w,
            h,
            x1,
            y1,
            x2,
            y2,
            bw,
        ),
        None => true,
    }
}

/// The buffer with the rectangle filled with `inside` and bordered with `border`.
pub open spec fn spec_mark(
    buf: Seq<u32>,
    w: u32,
    h: u32,
    r: Option<(i32, i32, i32, i32)>,
    bw: i32,
    inside: u32,
    border: u32,
) -> Seq<u32> {
    match r {
        Some((x1, y1, x2, y2)) => spec_border(
            spec_fill(buf, w, h, x1, y1, x2, y2, inside),
            w,
            h,
            x1,
            y1,
            x2,
            y2,
            bw,
            border,
        ),
        None => buf,
    }
}

/// Bounds of a monitor as a rectangle.
pub open spec fn monitor_box(m: crate::geometry::MonitorRect) -> (i32, i32, i32, i32) {
    (m.x, m.y, (m.x + (m.w as i32)) as i32, (m.y + (m.h as i32)) as i32)
}

/// Thin outlines around every monitor, in order.
pub open spec fn spec_outlines(
    buf: Seq<u32>,
    w: u32,
    h: u32,
    ms: Seq<crate::geometry::MonitorRect>,
    p: u32,
) -> Seq<u32>
    decreases ms.len(),
{
    if ms.len() == 0 {
        buf
    } else {
        let b = monitor_box(ms.last());
        spec_border(spec_outlines(buf, w, h, ms.drop_last(), p), w, h, b.0, b.1, b.2, b.3, 1, p)
    }
}

/// Every monitor's rectangle fits in `i32` and can be outlined.
pub open spec fn monitors_drawable(w: u32, h: u32, ms: Seq<crate::geometry::MonitorRect>) -> bool {
    forall|i: int|
        0 <= i < ms.len() ==> crate::geometry::monitor_rect_fits(#[trigger] ms[i]) && {
            let b = monitor_box(ms[i]);
            &&& border_ok(w, h, b.0, b.1, b.2, b.3, 1)
            &&& opt_rect_ok(w, h, Some(b), 3)
        }
}

/// Outline colour of monitors in select-screen mode.
pub open spec fn outline_pixel() -> u32 {
    spec_bgra(0x80, 0x80, 0x80, 0x80)
}

proof fn lemma_index(y: int, x: int, w: int, h: int)
    requires
        0 <= y < h,
        0 <= x < w,
    ensures
        0 <= y * w + x < w * h,
        (y * w + x) / w == y,
        (y * w + x) % w == x,
{
    assert(0 <= y * w) by (nonlinear_arith)
        requires
            0 <= y,
            0 <= w,
    ;
    assert(y * w + x < w * h) by (nonlinear_arith)
        requires
            0 <= y < h,
            0 <= x < w,
    ;
    vstd::arithmetic::div_mod::lemma_fundamental_div_mod_converse(y * w + x, w, y, x);
}

proof fn lemma_row_bound(i: int, w: int, h: int)
    requires
        0 <= i < w * h,
        w > 0,
    ensures
        0 <= i / w < h,
        0 <= i % w < w,
{
    assert(i / w < h) by (nonlinear_arith)
        requires
            0 <= i < w * h,
            w > 0,
    ;
    assert(0 <= i / w) by (nonlinear_arith)
        requires
            0 <= i,
            w > 0,
    ;
    assert(0 <= i % w < w) by (nonlinear_arith)
        requires
            w > 0,
    ;
}

impl LiveRenderer {
    /// The pixel buffer has exactly `width * height` pixels, and the
    /// rectangle drawn last can be restored.
    pub closed spec fn wf(&self) -> bool {
        &&& self.buffer@.len() == self.width as int * self.height as int
        &&& self.width <= i32::MAX
        &&& self.height <= i32::MAX
        &&& opt_fill_ok(self.width, self.height, self.prev_dirty)
    }

    pub closed spec fn pixels(&self) -> Seq<u32> {
        self.buffer@
    }

    pub closed spec fn spec_width(&self) -> u32 {
        self.width
    }

    pub closed spec fn spec_height(&self) -> u32 {
        self.height
    }

    pub closed spec fn spec_mode(&self) -> CaptureMode {
        self.mode
    }

    pub closed spec fn spec_hwnd(&self) -> isize {
        self.hwnd
    }

    /// The rectangle drawn by the last render, restored to dark on the next.
    pub closed spec fn spec_prev_dirty(&self) -> Option<(i32, i32, i32, i32)> {
        self.prev_dirty
    }

    pub closed spec fn spec_dark(&self) -> u32 {
        self.dark_pixel
    }

    pub closed spec fn spec_clear(&self) -> u32 {
        self.clear_pixel
    }

    pub closed spec fn spec_highlight(&self) -> u32 {
        self.highlight_pixel
    }

    pub closed spec fn spec_border_pixel(&self) -> u32 {
        self.border_pixel
    }

    /// A renderer for a `width` x `height` window, every pixel dark with alpha
    /// `dim_alpha`.
    pub fn new(hwnd: isize, width: u32, height: u32, dim_alpha: u8, mode: CaptureMode) -> (r: Self)
        requires
            width as int * height as int <= usize::MAX,
            width <= i32::MAX,
            height <= i32::MAX,
        ensures
            r.wf(),
            r.spec_width() == width,
            r.spec_height() == height,
            r.spec_hwnd() == hwnd,
            r.spec_mode() == mode,
            r.spec_prev_dirty() is None,
            r.spec_dark() == spec_bgra(0, 0, 0, dim_alpha),
            r.spec_clear() == spec_bgra(0, 0, 0, 0),
            r.spec_highlight() == spec_bgra(0, 0, 0, 1),
            r.spec_border_pixel() == spec_bgra(0xff, 0xaa, 0x00, 0xff),
            r.pixels() == Seq::new(width as nat * height as nat, |_i: int| spec_bgra(0, 0, 0, dim_alpha)),
    {
        let pixel_count = (width as usize) * (height as usize);
        let dark_pixel = bgra(0, 0, 0, dim_alpha);
        let clear_pixel = bgra(0, 0, 0, 0);
        // Alpha=1: invisible to the eye but the window still receives mouse events
        let highlight_pixel = bgra(0, 0, 0, 1);
        let border_pixel = bgra(0xff, 0xaa, 0x00, 0xff);  // #00aaff

        let buffer = vec![dark_pixel; pixel_count];
        assert(buffer@ =~= Seq::new(width as nat * height as nat, |_i: int| spec_bgra(0, 0, 0, dim_alpha)));

        Self {
            width,
            height,
            hwnd,
            buffer,
            dark_pixel,
            clear_pixel,
            highlight_pixel,
            border_pixel,
            mode,
            prev_dirty: None,
        }
    }

    /// The pixels to present, row by row.
    pub fn buffer(&self) -> (b: &[u32])
        ensures
            b@ == self.pixels(),
    {
        self.buffer.as_slice()
    }

    /// Fill the rectangle, clipped to the buffer, with `pixel`.
    fn fill_rect(&mut self, x1: i32, y1: i32, x2: i32, y2: i32, pixel: u32)
        requires
            old(self).wf(),
            fill_ok(old(self).width, old(self).height, x1, y1, x2, y2),
        ensures
            final(self).wf(),
            final(self).pixels() == spec_fill(
                old(self).pixels(),
                old(self).width,
                old(self).height,
                x1,
                y1,
                x2,
                y2,
                pixel,
            ),
            final(self).width == old(self).width,
            final(self).height == old(self).height,
            final(self).hwnd == old(self).hwnd,
            final(self).mode == old(self).mode,
            final(self).prev_dirty == old(self).prev_dirty,
            final(self).dark_pixel == old(self).dark_pixel,
            final(self).clear_pixel == old(self).clear_pixel,
            final(self).highlight_pixel == old(self).highlight_pixel,
            final(self).border_pixel == old(self).border_pixel,
    {
        let ghost old_self = *self;
        let ghost old_buf = self.buffer@;
        let ghost target = spec_fill(old_buf, self.width, self.height, x1, y1, x2, y2, pixel);
        let ghost wu = self.width;
        let ghost hu = self.height;
        let w = self.width as i32;
        let h = self.height as i32;
        let x1c = x1.max(0) as usize;
        let y1c = y1.max(0) as usize;
        let x2c = x2.min(w) as usize;
        let y2c = y2.min(h) as usize;
        let stride = self.width as usize;

        let mut y: usize = y1c;
        while y < y2c
            invariant
                self.wf(),
                self.width == wu,
                self.height == hu,
                self.hwnd == old_self.hwnd,
                self.mode == old_self.mode,
                self.prev_dirty == old_self.prev_dirty,
                self.dark_pixel == old_self.dark_pixel,
                self.clear_pixel == old_self.clear_pixel,
                self.highlight_pixel == old_self.highlight_pixel,
                self.border_pixel == old_self.border_pixel,
                stride == wu as usize,
                y1c <= y,
                y2c <= hu,
                y1c == (if y1 > 0 { y1 as int } else { 0 }),
                y2c == (if y2 < hu { y2 as int } else { hu as int }),
                y1c < y2c ==> x1c == (if x1 > 0 { x1 as int } else { 0 }),
                y1c < y2c ==> x2c == (if x2 < wu { x2 as int } else { wu as int }),
                y1c < y2c ==> x1c <= x2c <= wu,
                self.buffer@.len() == old_buf.len(),
                forall|i: int|
                    0 <= i < old_buf.len() ==> #[trigger] self.buffer@[i] == if in_fill(
                        i,
                        wu,
                        hu,
                        x1,
                        y1,
                        x2,
                        y2,
                    ) && row(i, wu) < y {
                        pixel
                    } else {
                        old_buf[i]
                    },
            decreases y2c - y,
        {
            proof {
                assert(y * stride + x2c <= (wu as int) * (hu as int)) by (nonlinear_arith)
                    requires
                        y < hu,
                        x2c <= wu,
                        stride == wu,
                ;
            }
            let blen = self.buffer.len();
            let row_start = y * stride + x1c;
            let row_end = y * stride + x2c;
            if row_end <= blen {
                let mut x: usize = x1c;
                while x < x2c
                    invariant
                        self.wf(),
                        self.width == wu,
                        self.height == hu,
                        self.hwnd == old_self.hwnd,
                        self.mode == old_self.mode,
                        self.prev_dirty == old_self.prev_dirty,
                        self.dark_pixel == old_self.dark_pixel,
                        self.clear_pixel == old_self.clear_pixel,
                        self.highlight_pixel == old_self.highlight_pixel,
                        self.border_pixel == old_self.border_pixel,
                        stride == wu as usize,
                        y1c <= y < y2c,
                        y2c <= hu,
                        x1c <= x <= x2c,
                        x2c <= wu,
                        blen == old_buf.len(),
                        x1c == (if x1 > 0 { x1 as int } else { 0 }),
                        x2c == (if x2 < wu { x2 as int } else { wu as int }),
                        y1c == (if y1 > 0 { y1 as int } else { 0 }),
                        y2c == (if y2 < hu { y2 as int } else { hu as int }),
                        self.buffer@.len() == old_buf.len(),
                        forall|i: int|
                            0 <= i < old_buf.len() ==> #[trigger] self.buffer@[i] == if in_fill(
                                i,
                                wu,
                                hu,
                                x1,
                                y1,
                                x2,
                                y2,
                            ) && (row(i, wu) < y || (row(i, wu) == y && col(i, wu) < x)) {
                                pixel
                            } else {
                                old_buf[i]
                            },
                    decreases x2c - x,
                {
                    proof {
                        lemma_index(y as int, x as int, wu as int, hu as int);
                        assert(y * stride + x < (wu as int) * (hu as int));
                        assert forall|i: int|
                            0 <= i < old_buf.len() && row(i, wu) == y && col(i, wu) == x implies i
                            == y * stride + x by {
                            vstd::arithmetic::div_mod::lemma_fundamental_div_mod(i, wu as int);
                        }
                    }
                    let idx = y * stride + x;
                    self.buffer.set(idx, pixel);
                    x += 1;
                }
            }
            y += 1;
        }
        assert forall|i: int| 0 <= i < old_buf.len() implies #[trigger] self.buffer@[i] == target[i] by {
            if wu > 0 {
                lemma_row_bound(i, wu as int, hu as int);
            }
        }
        assert(self.buffer@ =~= target);
    }

    /// Draw border INSIDE the rect (so it's visible even for fullscreen rects).
    fn draw_border(&mut self, x1: i32, y1: i32, x2: i32, y2: i32, bw: i32, pixel: u32)
        requires
            old(self).wf(),
            border_ok(old(self).width, old(self).height, x1, y1, x2, y2, bw),
        ensures
            final(self).wf(),
            final(self).pixels() == spec_border(
                old(self).pixels(),
                old(self).width,
                old(self).height,
                x1,
                y1,
                x2,
                y2,
                bw,
                pixel,
            ),
            final(self).width == old(self).width,
            final(self).height == old(self).height,
            final(self).hwnd == old(self).hwnd,
            final(self).mode == old(self).mode,
            final(self).prev_dirty == old(self).prev_dirty,
            final(self).dark_pixel == old(self).dark_pixel,
            final(self).clear_pixel == old(self).clear_pixel,
            final(self).highlight_pixel == old(self).highlight_pixel,
            final(self).border_pixel == old(self).border_pixel,
    {
        self.fill_rect(x1, y1, x2, y1 + bw, pixel);  // top
        self.fill_rect(x1, y2 - bw, x2, y2, pixel);  // bottom
        self.fill_rect(x1, y1 + bw, x1 + bw, y2 - bw, pixel);  // left
        self.fill_rect(x2 - bw, y1 + bw, x2, y2 - bw, pixel);  // right
    }

    /// Whether a rectangle (or none) can be drawn with a border `bw` wide.
    pub fn can_mark(&self, r: Option<(i32, i32, i32, i32)>, bw: i32) -> (b: bool)
        ensures
            b == opt_rect_ok(self.spec_width(), self.spec_height(), r, bw),
    {
        match r {
            None => true,
            Some((x1, y1, x2, y2)) => {
                if !self.can_fill(x1, y1, x2, y2) {
                    return false;
                }
                let a = y1 as i64 + bw as i64;
                let b = y2 as i64 - bw as i64;
                let c = x1 as i64 + bw as i64;
                let d = x2 as i64 - bw as i64;
                let lo = i32::MIN as i64;
                let hi = i32::MAX as i64;
                if a < lo || a > hi || b < lo || b > hi || c < lo || c > hi || d < lo || d > hi {
                    return false;
                }
                let (a, b, c, d) = (a as i32, b as i32, c as i32, d as i32);
                self.can_fill(x1, y1, x2, a) && self.can_fill(x1, b, x2, y2) && self.can_fill(
                    x1,
                    a,
                    c,
                    b,
                ) && self.can_fill(d, a, x2, b)
            },
        }
    }

    /// Whether every monitor can be outlined and highlighted.
    pub fn can_draw_monitors(&self, monitors: &[crate::geometry::MonitorRect]) -> (b: bool)
        ensures
            b == monitors_drawable(self.spec_width(), self.spec_height(), monitors@),
    {
        let mut i: usize = 0;
        while i < monitors.len()
            invariant
                i <= monitors@.len(),
                forall|k: int|
                    0 <= k < i ==> crate::geometry::monitor_rect_fits(#[trigger] monitors@[k]) && {
                        let bx = monitor_box(monitors@[k]);
                        &&& border_ok(self.spec_width(), self.spec_height(), bx.0, bx.1, bx.2, bx.3, 1)
                        &&& opt_rect_ok(self.spec_width(), self.spec_height(), Some(bx), 3)
                    },
            decreases monitors@.len() - i,
        {
            let m = &monitors[i];
            let r = m.x as i64 + m.w as i32 as i64;
            let btm = m.y as i64 + m.h as i32 as i64;
            if r < i32::MIN as i64 || r > i32::MAX as i64 || btm < i32::MIN as i64 || btm
                > i32::MAX as i64 {
                return false;
            }
            let bx = (m.x, m.y, r as i32, btm as i32);
            assert(bx == monitor_box(monitors@[i as int]));
            let thin = self.can_mark(Some(bx), 1);
            let thick = self.can_mark(Some(bx), 3);
            if !thin || !thick {
                return false;
            }
            i += 1;
        }
        true
    }

    /// Whether a rectangle can be filled without the clipping running backwards.
    pub fn can_fill(&self, x1: i32, y1: i32, x2: i32, y2: i32) -> (b: bool)
        ensures
            b == fill_ok(self.spec_width(), self.spec_height(), x1, y1, x2, y2),
    {
        let y1c: i64 = if y1 > 0 { y1 as i64 } else { 0 };
        let y2c: i64 = if (y2 as i64) < self.height as i64 { y2 as i64 } else { self.height as i64 };
        let x1c: i64 = if x1 > 0 { x1 as i64 } else { 0 };
        let x2c: i64 = if (x2 as i64) < self.width as i64 { x2 as i64 } else { self.width as i64 };
        y2 >= 0 && (y1c >= y2c || (x2 >= 0 && x1c <= x2c))
    }

    /// Region mode: restore the previous selection to dark, then show the new
    /// selection clear with a 2-pixel border.
    pub fn render_region_mode(&mut self, new_sel: Option<(i32, i32, i32, i32)>)
        requires
            old(self).wf(),
            opt_rect_ok(old(self).spec_width(), old(self).spec_height(), new_sel, 2),
        ensures
            final(self).wf(),
            final(self).pixels() == spec_mark(
                spec_restore(
                    old(self).pixels(),
                    old(self).spec_width(),
                    old(self).spec_height(),
                    old(self).spec_prev_dirty(),
                    old(self).spec_dark(),
                ),
                old(self).spec_width(),
                old(self).spec_height(),
                new_sel,
                2,
                old(self).spec_clear(),
                old(self).spec_border_pixel(),
            ),
            final(self).spec_prev_dirty() == new_sel,
            final(self).spec_width() == old(self).spec_width(),
            final(self).spec_height() == old(self).spec_height(),
            final(self).spec_hwnd() == old(self).spec_hwnd(),
            final(self).spec_mode() == old(self).spec_mode(),
            final(self).spec_dark() == old(self).spec_dark(),
            final(self).spec_clear() == old(self).spec_clear(),
            final(self).spec_highlight() == old(self).spec_highlight(),
            final(self).spec_border_pixel() == old(self).spec_border_pixel(),
    {
        // Restore previous area
        if let Some((px1, py1, px2, py2)) = self.prev_dirty {
            let dark = self.dark_pixel;
            self.fill_rect(px1, py1, px2, py2, dark);
        }
        // Draw new selection
        if let Some((x1, y1, x2, y2)) = new_sel {
            let clear = self.clear_pixel;
            let border = self.border_pixel;
            self.fill_rect(x1, y1, x2, y2, clear);
            self.draw_border(x1, y1, x2, y2, 2, border);
        }
        self.prev_dirty = new_sel;
    }

    /// Window mode: restore the previous highlight to dark, then mark the
    /// hovered window with the nearly transparent highlight and a 3-pixel border.
    pub fn render_window_mode(&mut self, hovered: Option<(i32, i32, i32, i32)>)
        requires
            old(self).wf(),
            opt_rect_ok(old(self).spec_width(), old(self).spec_height(), hovered, 3),
        ensures
            final(self).wf(),
            final(self).pixels() == spec_mark(
                spec_restore(
                    old(self).pixels(),
                    old(self).spec_width(),
                    old(self).spec_height(),
                    old(self).spec_prev_dirty(),
                    old(self).spec_dark(),
                ),
                old(self).spec_width(),
                old(self).spec_height(),
                hovered,
                3,
                old(self).spec_highlight(),
                old(self).spec_border_pixel(),
            ),
            final(self).spec_prev_dirty() == hovered,
            final(self).spec_width() == old(self).spec_width(),
            final(self).spec_height() == old(self).spec_height(),
            final(self).spec_hwnd() == old(self).spec_hwnd(),
            final(self).spec_mode() == old(self).spec_mode(),
            final(self).spec_dark() == old(self).spec_dark(),
            final(self).spec_clear() == old(self).spec_clear(),
            final(self).spec_highlight() == old(self).spec_highlight(),
            final(self).spec_border_pixel() == old(self).spec_border_pixel(),
    {
        let bw: i32 = 3;
        // Restore previous highlighted area back to dark
        if let Some((px1, py1, px2, py2)) = self.prev_dirty {
            let dark = self.dark_pixel;
            self.fill_rect(px1, py1, px2, py2, dark);
        }
        // Draw highlight around hovered window
        if let Some((x1, y1, x2, y2)) = hovered {
            // The highlight pixel (alpha=1) is nearly invisible but still
            // receives mouse events; alpha=0 would pass clicks through.
            let highlight = self.highlight_pixel;
            let border = self.border_pixel;
            self.fill_rect(x1, y1, x2, y2, highlight);
            self.draw_border(x1, y1, x2, y2, bw, border);
            self.prev_dirty = Some((x1, y1, x2, y2));
        } else {
            self.prev_dirty = None;
        }
    }

    /// Select-screen mode: restore the previous highlight, outline every
    /// monitor, then highlight the hovered monitor (when its index is valid).
    pub fn render_select_screen_mode(
        &mut self,
        monitors: &[crate::geometry::MonitorRect],
        hovered_monitor: Option<usize>,
    )
        requires
            old(self).wf(),
            monitors_drawable(old(self).spec_width(), old(self).spec_height(), monitors@),
        ensures
            final(self).wf(),
            ({
                let w = old(self).spec_width();
                let h = old(self).spec_height();
                let restored = spec_restore(
                    old(self).pixels(),
                    w,
                    h,
                    old(self).spec_prev_dirty(),
                    old(self).spec_dark(),
                );
                let outlined = spec_outlines(restored, w, h, monitors@, outline_pixel());
                match hovered_monitor {
                    Some(idx) => if idx < monitors@.len() {
                        &&& final(self).pixels() == spec_mark(
                            outlined,
                            w,
                            h,
                            Some(monitor_box(monitors@[idx as int])),
                            3,
                            old(self).spec_highlight(),
                            old(self).spec_border_pixel(),
                        )
                        &&& final(self).spec_prev_dirty() == Some(monitor_box(monitors@[idx as int]))
                    } else {
                        &&& final(self).pixels() == outlined
                        &&& final(self).spec_prev_dirty() == old(self).spec_prev_dirty()
                    },
                    None => {
                        &&& final(self).pixels() == outlined
                        &&& final(self).spec_prev_dirty() is None
                    },
                }
            }),
            final(self).spec_width() == old(self).spec_width(),
            final(self).spec_height() == old(self).spec_height(),
            final(self).spec_hwnd() == old(self).spec_hwnd(),
            final(self).spec_mode() == old(self).spec_mode(),
            final(self).spec_dark() == old(self).spec_dark(),
            final(self).spec_clear() == old(self).spec_clear(),
            final(self).spec_highlight() == old(self).spec_highlight(),
            final(self).spec_border_pixel() == old(self).spec_border_pixel(),
    {
        let bw: i32 = 3;
        let ghost w = self.width;
        let ghost h = self.height;
        // Restore previous highlighted area
        if let Some((px1, py1, px2, py2)) = self.prev_dirty {
            let dark = self.dark_pixel;
            self.fill_rect(px1, py1, px2, py2, dark);
        }
        let ghost restored = self.pixels();
        let ghost ms = monitors@;
        let ghost s0 = *self;

        // Draw thin gray outlines for all monitors
        let outline = bgra(0x80, 0x80, 0x80, 0x80);
        let mut i: usize = 0;
        while i < monitors.len()
            invariant
                self.wf(),
                ms == monitors@,
                i <= ms.len(),
                self.width == w,
                self.height == h,
                self.hwnd == s0.hwnd,
                self.mode == s0.mode,
                self.prev_dirty == s0.prev_dirty,
                self.dark_pixel == s0.dark_pixel,
                self.clear_pixel == s0.clear_pixel,
                self.highlight_pixel == s0.highlight_pixel,
                self.border_pixel == s0.border_pixel,
                outline == outline_pixel(),
                monitors_drawable(w, h, ms),
                self.pixels() == spec_outlines(restored, w, h, ms.take(i as int), outline),
            decreases ms.len() - i,
        {
            let mon = &monitors[i];
            assert(crate::geometry::monitor_rect_fits(ms[i as int]));
            assert(ms.take(i + 1).drop_last() =~= ms.take(i as int));
            assert(ms.take(i + 1).last() == ms[i as int]);
            let mx1 = mon.x;
            let my1 = mon.y;
            let mx2 = mx1 + mon.w as i32;
            let my2 = my1 + mon.h as i32;
            self.draw_border(mx1, my1, mx2, my2, 1, outline);
            i += 1;
        }
        assert(ms.take(i as int) =~= ms);

        // Highlight hovered monitor (same pattern as window mode)
        if let Some(idx) = hovered_monitor {
            if idx < monitors.len() {
                let mon = &monitors[idx];
                assert(crate::geometry::monitor_rect_fits(ms[idx as int]));
                let mx1 = mon.x;
                let my1 = mon.y;
                let mx2 = mx1 + mon.w as i32;
                let my2 = my1 + mon.h as i32;
                // The highlight pixel (alpha=1) is nearly invisible but catches mouse events
                let highlight = self.highlight_pixel;
                let border = self.border_pixel;
                self.fill_rect(mx1, my1, mx2, my2, highlight);
                self.draw_border(mx1, my1, mx2, my2, bw, border);
                self.prev_dirty = Some((mx1, my1, mx2, my2));
            }
        } else {
            self.prev_dirty = None;
        }
    }
}

} // verus!
