//! Checks on a finished selection before the pixels are captured: minimum
//! size, corner ordering, and whether the annotation editor opens.

use vstd::prelude::*;
use crate::error::AppError;

verus! {

/// Selections narrower or lower than this many pixels are refused.
pub const MIN_SELECTION: u32 = 3;

/// A selection in image coordinates as `(left, top, width, height)`:
/// corners ordered, refused when smaller than the minimum in either
/// direction.
pub fn image_selection(x1: u32, y1: u32, x2: u32, y2: u32) -> (r: Result<(u32, u32, u32, u32), AppError>)
    ensures
        ({
            let l = if x1 < x2 { x1 } else { x2 };
            let t = if y1 < y2 { y1 } else { y2 };
            let w = (if x1 > x2 { x1 } else { x2 }) - l;
            let h = (if y1 > y2 { y1 } else { y2 }) - t;
            &&& (w < MIN_SELECTION || h < MIN_SELECTION) ==> (r matches Err(e) && e is Capture
                && e.message() == "Selection too small"@)
            &&& (w >= MIN_SELECTION && h >= MIN_SELECTION) ==> r == Ok::<
                (u32, u32, u32, u32),
                AppError,
            >((l, t, w as u32, h as u32))
        }),
{
    let left = x1.min(x2);
    let top = y1.min(y2);
    let right = x1.max(x2);
    let bottom = y1.max(y2);
    let w = right - left;
    let h = bottom - top;
    if w < MIN_SELECTION || h < MIN_SELECTION {
        return Err(AppError::Capture(String::from_str("Selection too small")));
    }
    Ok((left, top, w, h))
}

/// A selection in screen coordinates as `(x, y, width, height)` with the
/// corners ordered.
pub fn screen_selection(x1: i32, y1: i32, x2: i32, y2: i32) -> (r: (i32, i32, u32, u32))
    ensures
        ({
            let l = if x1 < x2 { x1 } else { x2 };
            let t = if y1 < y2 { y1 } else { y2 };
            r == (l, t, ((if x1 > x2 { x1 } else { x2 }) - l) as u32, ((if y1 > y2 {
                y1
            } else {
                y2
            }) - t) as u32)
        }),
{
    let sx = x1.min(x2);
    let sy = y1.min(y2);
    let sw = (x1.max(x2) as i64 - sx as i64) as u32;
    let sh = (y1.max(y2) as i64 - sy as i64) as u32;
    (sx, sy, sw, sh)
}

/// A directly captured region must reach the minimum size.
pub fn check_selection_size(w: u32, h: u32) -> (r: Result<(), AppError>)
    ensures
        (w < MIN_SELECTION || h < MIN_SELECTION) ==> (r matches Err(e) && e is Capture
            && e.message() == "Selection too small"@),
        (w >= MIN_SELECTION && h >= MIN_SELECTION) ==> r is Ok,
{
    if w < MIN_SELECTION || h < MIN_SELECTION {
        return Err(AppError::Capture(String::from_str("Selection too small")));
    }
    Ok(())
}

/// A screen region handed to the OS capture must have pixels in both
/// directions.
pub fn check_region_size(w: u32, h: u32) -> (r: Result<(), AppError>)
    ensures
        (w == 0 || h == 0) ==> (r matches Err(e) && e is Capture && e.message()
            == "Region too small"@),
        (w != 0 && h != 0) ==> r is Ok,
{
    if w == 0 || h == 0 {
        return Err(AppError::Capture(String::from_str("Region too small")));
    }
    Ok(())
}

/// The size of a window's bounds (negative extents count as zero).
pub fn window_extent(left: i32, top: i32, right: i32, bottom: i32) -> (r: (u32, u32))
    ensures
        r == ((if right - left > 0 { right - left } else { 0 }) as u32, (if bottom - top > 0 {
            bottom - top
        } else {
            0
        }) as u32),
{
    let w = right as i64 - left as i64;
    let h = bottom as i64 - top as i64;
    ((if w > 0 { w } else { 0 }) as u32, (if h > 0 { h } else { 0 }) as u32)
}

/// A selected window must have positive bounds and reach the minimum size;
/// gives its width and height.
pub fn check_window_bounds(left: i32, top: i32, right: i32, bottom: i32) -> (r: Result<(u32, u32), AppError>)
    ensures
        (right <= left || bottom <= top) ==> (r matches Err(e) && e is Capture && e.message()
            == "Invalid window bounds"@),
        (right > left && bottom > top && (right - left < MIN_SELECTION || bottom - top
            < MIN_SELECTION)) ==> (r matches Err(e) && e is Capture && e.message()
            == "Window too small"@),
        (right - left >= MIN_SELECTION && bottom - top >= MIN_SELECTION) ==> r == Ok::<
            (u32, u32),
            AppError,
        >(((right - left) as u32, (bottom - top) as u32)),
{
    if right <= left || bottom <= top {
        return Err(AppError::Capture(String::from_str("Invalid window bounds")));
    }
    let w = (right as i64 - left as i64) as u32;
    let h = (bottom as i64 - top as i64) as u32;
    if w < MIN_SELECTION || h < MIN_SELECTION {
        return Err(AppError::Capture(String::from_str("Window too small")));
    }
    Ok((w, h))
}

/// The annotation editor opens when the user held Shift or annotates every
/// capture.
pub fn should_annotate(force_annotate: bool, annotate_captures: bool) -> (r: bool)
    ensures
        r == (force_annotate || annotate_captures),
{
    force_annotate || annotate_captures
}

} // verus!
