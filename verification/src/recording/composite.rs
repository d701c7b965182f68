//! Composing a recording frame from several monitor captures: rectangles of
//! RGBA pixels copied row by row into the output canvas.

use vstd::prelude::*;
use crate::geometry::{MonitorInfo, OverlapRect, right_of, bottom_of};

verus! {

/// `d` with `piece` written over it from byte `at` on.
pub open spec fn splice(d: Seq<u8>, at: int, piece: Seq<u8>) -> Seq<u8> {
    d.subrange(0, at) + piece + d.subrange(at + piece.len(), d.len() as int)
}

/// The first `k` rows of a `w`-pixel-wide block copied from `(sx, sy)` of
/// an image `src_w` pixels wide to `(dx, dy)` of one `dst_w` pixels wide.
pub open spec fn blit_rows(
    d: Seq<u8>,
    dst_w: u32,
    src: Seq<u8>,
    src_w: u32,
    sx: u32,
    sy: u32,
    dx: u32,
    dy: u32,
    w: u32,
    k: nat,
) -> Seq<u8>
    decreases k,
{
    if k == 0 {
        d
    } else {
        let r = (k - 1) as nat;
        let from = ((sy + r) * src_w + sx) * 4;
        splice(
            blit_rows(d, dst_w, src, src_w, sx, sy, dx, dy, w, r),
            ((dy + r) * dst_w + dx) * 4,
            src.subrange(from, from + w * 4),
        )
    }
}

/// The block fits inside both images.
pub open spec fn blit_fits(
    dst_len: nat,
    dst_w: u32,
    dst_h: u32,
    src_len: nat,
    src_w: u32,
    src_h: u32,
    sx: u32,
    sy: u32,
    dx: u32,
    dy: u32,
    w: u32,
    h: u32,
) -> bool {
    &&& dst_len == dst_w * dst_h * 4
    &&& src_len == src_w * src_h * 4
    &&& dx + w <= dst_w && dy + h <= dst_h
    &&& sx + w <= src_w && sy + h <= src_h
}

proof fn lemma_row_in_bounds(y: int, x: int, w: int, img_w: int, img_h: int)
    requires
        0 <= y < img_h,
        0 <= x,
        x + w <= img_w,
        0 <= w,
    ensures
        0 <= (y * img_w + x) * 4,
        (y * img_w + x) * 4 + w * 4 <= img_w * img_h * 4,
{
    assert(0 <= y * img_w) by (nonlinear_arith)
        requires
            0 <= y,
            0 <= img_w,
    ;
    assert((y + 1) * img_w <= img_h * img_w) by (nonlinear_arith)
        requires
            y + 1 <= img_h,
            0 <= img_w,
    ;
    assert((y + 1) * img_w == y * img_w + img_w) by (nonlinear_arith);
    assert(img_h * img_w * 4 == img_w * img_h * 4) by (nonlinear_arith);
}

/// Copies a `w` x `h` block of RGBA pixels from `(sx, sy)` of `src` to
/// `(dx, dy)` of `dst`, row by row.
pub fn blit_rgba(
    dst: &mut Vec<u8>,
    dst_w: u32,
    dst_h: u32,
    src: &[u8],
    src_w: u32,
    src_h: u32,
    sx: u32,
    sy: u32,
    dx: u32,
    dy: u32,
    w: u32,
    h: u32,
)
    requires
        blit_fits(old(dst)@.len(), dst_w, dst_h, src@.len(), src_w, src_h, sx, sy, dx, dy, w, h),
    ensures
        final(dst)@ == blit_rows(old(dst)@, dst_w, src@, src_w, sx, sy, dx, dy, w, h as nat),
        final(dst)@.len() == old(dst)@.len(),
{
    let ghost d0 = dst@;
    let dlen = dst.len();
    let slen = src.len();
    let mut r: u32 = 0;
    while r < h
        invariant
            blit_fits(d0.len(), dst_w, dst_h, src@.len(), src_w, src_h, sx, sy, dx, dy, w, h),
            dlen == d0.len(),
            slen == src@.len(),
            r <= h,
            dst@ == blit_rows(d0, dst_w, src@, src_w, sx, sy, dx, dy, w, r as nat),
            dst@.len() == d0.len(),
        decreases h - r,
    {
        proof {
            lemma_row_in_bounds((dy + r) as int, dx as int, w as int, dst_w as int, dst_h as int);
            lemma_row_in_bounds((sy + r) as int, sx as int, w as int, src_w as int, src_h as int);
        }
        let dst_off = ((dy + r) as usize * dst_w as usize + dx as usize) * 4;
        let src_off = ((sy + r) as usize * src_w as usize + sx as usize) * 4;
        let len = w as usize * 4;
        let ghost before = dst@;
        let mut k: usize = 0;
        while k < len
            invariant
                dlen == d0.len(),
                slen == src@.len(),
                before.len() == d0.len(),
                dst_off + len <= d0.len(),
                src_off + len <= src@.len(),
                k <= len,
                dst@ == splice(before, dst_off as int, src@.subrange(src_off as int, src_off + k)),
            decreases len - k,
        {
            dst.set(dst_off + k, src[src_off + k]);
            k += 1;
            assert(dst@ =~= splice(before, dst_off as int, src@.subrange(src_off as int, src_off + k)));
        }
        r += 1;
    }
}

/// The bytes of one overlap to copy: the overlap's source rectangle trimmed
/// to the captured image and to the canvas, as `(width, height)`.
pub open spec fn overlap_copy_size(ov: OverlapRect, img_w: u32, img_h: u32, out_w: u32, out_h: u32) -> (u32, u32) {
    let sw = if ov.src_w < img_w - ov.src_x { ov.src_w as int } else { if img_w > ov.src_x { img_w - ov.src_x } else { 0 } };
    let sh = if ov.src_h < img_h - ov.src_y { ov.src_h as int } else { if img_h > ov.src_y { img_h - ov.src_y } else { 0 } };
    let cw = if sw < out_w - ov.dst_x { sw } else { if out_w > ov.dst_x { out_w - ov.dst_x } else { 0 } };
    let ch = if sh < out_h - ov.dst_y { sh } else { if out_h > ov.dst_y { out_h - ov.dst_y } else { 0 } };
    (cw as u32, ch as u32)
}

/// Copies the part of a monitor capture that overlaps the recording region
/// into the region-sized canvas, trimmed to both images.
pub fn composite_overlap(
    canvas: &mut Vec<u8>,
    out_w: u32,
    out_h: u32,
    img: &[u8],
    img_w: u32,
    img_h: u32,
    ov: &OverlapRect,
)
    requires
        old(canvas)@.len() == out_w * out_h * 4,
        img@.len() == img_w * img_h * 4,
    ensures
        ({
            let (cw, ch) = overlap_copy_size(*ov, img_w, img_h, out_w, out_h);
            &&& (cw == 0 || ch == 0) ==> final(canvas)@ == old(canvas)@
            &&& (cw > 0 && ch > 0) ==> final(canvas)@ == blit_rows(
                old(canvas)@,
                out_w,
                img@,
                img_w,
                ov.src_x,
                ov.src_y,
                ov.dst_x,
                ov.dst_y,
                cw,
                ch as nat,
            )
        }),
{
    let sw = ov.src_w.min(img_w.saturating_sub(ov.src_x));
    let sh = ov.src_h.min(img_h.saturating_sub(ov.src_y));
    let copy_h = sh.min(out_h.saturating_sub(ov.dst_y));
    let copy_w = sw.min(out_w.saturating_sub(ov.dst_x));
    if copy_h == 0 || copy_w == 0 {
        return;
    }
    blit_rgba(canvas, out_w, out_h, img, img_w, img_h, ov.src_x, ov.src_y, ov.dst_x, ov.dst_y, copy_w, copy_h);
}

/// Places a whole monitor capture at `(ox, oy)` of the desktop canvas,
/// trimmed to the canvas.
pub fn place_capture(
    canvas: &mut Vec<u8>,
    out_w: u32,
    out_h: u32,
    img: &[u8],
    img_w: u32,
    img_h: u32,
    ox: u32,
    oy: u32,
)
    requires
        old(canvas)@.len() == out_w * out_h * 4,
        img@.len() == img_w * img_h * 4,
    ensures
        ({
            let cw = if img_w < out_w - ox { img_w as int } else { if out_w > ox { out_w - ox } else { 0 } };
            let ch = if img_h < out_h - oy { img_h as int } else { if out_h > oy { out_h - oy } else { 0 } };
            &&& (cw == 0 || ch == 0) ==> final(canvas)@ == old(canvas)@
            &&& (cw > 0 && ch > 0) ==> final(canvas)@ == blit_rows(
                old(canvas)@,
                out_w,
                img@,
                img_w,
                0,
                0,
                ox,
                oy,
                cw as u32,
                ch as nat,
            )
        }),
{
    let copy_h = img_h.min(out_h.saturating_sub(oy));
    let copy_w = img_w.min(out_w.saturating_sub(ox));
    if copy_h == 0 || copy_w == 0 {
        return;
    }
    blit_rgba(canvas, out_w, out_h, img, img_w, img_h, 0, 0, ox, oy, copy_w, copy_h);
}

/// The size of a full-desktop recording frame: from the desktop origin to
/// the furthest right and bottom monitor edges (0 for no monitors).
pub open spec fn spec_desktop_frame_size(ms: Seq<MonitorInfo>, desk_x: i32, desk_y: i32) -> (u32, u32) {
    (
        (max_edge(ms, true) - desk_x) as u32,
        (max_edge(ms, false) - desk_y) as u32,
    )
}

/// Largest right (or bottom) edge of the monitors, 0 for none.
pub open spec fn max_edge(ms: Seq<MonitorInfo>, right: bool) -> int
    decreases ms.len(),
{
    if ms.len() == 0 {
        0
    } else if ms.len() == 1 {
        if right { right_of(ms[0]) } else { bottom_of(ms[0]) }
    } else {
        let r = max_edge(ms.drop_last(), right);
        let e = if right { right_of(ms.last()) } else { bottom_of(ms.last()) };
        if e > r { e } else { r }
    }
}

/// The canvas size of a full-desktop multi-monitor recording.
pub fn desktop_frame_size(monitors: &[MonitorInfo], desk_x: i32, desk_y: i32) -> (r: (u32, u32))
    requires
        forall|i: int|
            0 <= i < monitors@.len() ==> i32::MIN <= #[trigger] right_of(monitors@[i]) <= i32::MAX
                && i32::MIN <= bottom_of(monitors@[i]) <= i32::MAX,
    ensures
        r == spec_desktop_frame_size(monitors@, desk_x, desk_y),
{
    let ghost ms = monitors@;
    let mut dx: i32 = 0;
    let mut dy: i32 = 0;
    let mut i: usize = 0;
    while i < monitors.len()
        invariant
            ms == monitors@,
            i <= ms.len(),
            forall|k: int|
                0 <= k < ms.len() ==> i32::MIN <= #[trigger] right_of(ms[k]) <= i32::MAX && i32::MIN
                    <= bottom_of(ms[k]) <= i32::MAX,
            dx == max_edge(ms.take(i as int), true),
            dy == max_edge(ms.take(i as int), false),
        decreases ms.len() - i,
    {
        let m = &monitors[i];
        assert(i32::MIN <= right_of(ms[i as int]) <= i32::MAX);
        assert(ms.take(i + 1).drop_last() =~= ms.take(i as int));
        assert(ms.take(i + 1).last() == ms[i as int]);
        let e = m.x + m.width as i32;
        let f = m.y + m.height as i32;
        if i == 0 {
            assert(ms.take(1)[0] == ms[0]);
            dx = e;
            dy = f;
        } else {
            dx = if e > dx { e } else { dx };
            dy = if f > dy { f } else { dy };
        }
        i += 1;
    }
    assert(ms.take(i as int) =~= ms);
    ((dx as i64 - desk_x as i64) as u32, (dy as i64 - desk_y as i64) as u32)
}

proof fn lemma_max_edge_bounds(ms: Seq<MonitorInfo>, right: bool)
    requires
        ms.len() > 0,
    ensures
        forall|i: int|
            0 <= i < ms.len() ==> (if right { right_of(#[trigger] ms[i]) } else { bottom_of(ms[i]) })
                <= max_edge(ms, right),
        exists|i: int|
            0 <= i < ms.len() && (if right { right_of(#[trigger] ms[i]) } else { bottom_of(ms[i]) })
                == max_edge(ms, right),
    decreases ms.len(),
{
    if ms.len() == 1 {
        assert((if right { right_of(ms[0]) } else { bottom_of(ms[0]) }) == max_edge(ms, right));
    } else {
        let p = ms.drop_last();
        lemma_max_edge_bounds(p, right);
        assert forall|i: int| 0 <= i < ms.len() implies (if right {
            right_of(#[trigger] ms[i])
        } else {
            bottom_of(ms[i])
        }) <= max_edge(ms, right) by {
            if i < ms.len() - 1 {
                assert(ms[i] == p[i]);
            }
        }
        let k = choose|i: int|
            0 <= i < p.len() && (if right { right_of(#[trigger] p[i]) } else { bottom_of(p[i]) })
                == max_edge(p, right);
        let last = ms.len() - 1;
        if (if right { right_of(ms[last]) } else { bottom_of(ms[last]) }) > max_edge(p, right) {
            assert((if right { right_of(ms[last]) } else { bottom_of(ms[last]) }) == max_edge(ms, right));
        } else {
            assert(ms[k] == p[k]);
            assert((if right { right_of(ms[k]) } else { bottom_of(ms[k]) }) == max_edge(ms, right));
        }
    }
}

/// A full-desktop frame covers every monitor and no more: each monitor's
/// right and bottom edges lie within the frame placed at the desktop origin
/// `(desk_x, desk_y)`, and some monitor reaches the frame's right edge and
/// some its bottom edge.
pub proof fn law_desktop_frame_covers_monitors(ms: Seq<MonitorInfo>, desk_x: i32, desk_y: i32)
    requires
        ms.len() > 0,
        forall|i: int|
            0 <= i < ms.len() ==> desk_x <= #[trigger] right_of(ms[i]) <= desk_x + u32::MAX
                && desk_y <= bottom_of(ms[i]) <= desk_y + u32::MAX,
    ensures
        ({
            let (w, h) = spec_desktop_frame_size(ms, desk_x, desk_y);
            &&& forall|i: int|
                0 <= i < ms.len() ==> #[trigger] right_of(ms[i]) <= desk_x + w && bottom_of(ms[i])
                    <= desk_y + h
            &&& exists|i: int| 0 <= i < ms.len() && #[trigger] right_of(ms[i]) == desk_x + w
            &&& exists|i: int| 0 <= i < ms.len() && #[trigger] bottom_of(ms[i]) == desk_y + h
        }),
{
    lemma_max_edge_bounds(ms, true);
    lemma_max_edge_bounds(ms, false);
    let kr = choose|i: int| 0 <= i < ms.len() && right_of(#[trigger] ms[i]) == max_edge(ms, true);
    let kb = choose|i: int| 0 <= i < ms.len() && bottom_of(#[trigger] ms[i]) == max_edge(ms, false);
    assert(right_of(ms[kr]) == max_edge(ms, true));
    assert(bottom_of(ms[kb]) == max_edge(ms, false));
    assert(desk_x <= right_of(ms[kr]) <= desk_x + u32::MAX);
    assert(desk_y <= bottom_of(ms[kb]) <= desk_y + u32::MAX);
    let (w, h) = spec_desktop_frame_size(ms, desk_x, desk_y);
    assert(w == max_edge(ms, true) - desk_x);
    assert(h == max_edge(ms, false) - desk_y);
}

} // verus!
