//! Window detection for window-capture mode: which top-level window lies
//! under the cursor, given the window list in z-order (topmost first).
//!
//! The window list itself comes from the operating system; a background
//! worker refreshes it and hands it to these functions as plain values.

use vstd::prelude::*;
use crate::text::starts_with;

verus! {

/// Window bounds in screen coordinates (right and bottom exclusive).
#[derive(Debug, PartialEq, Eq)]
pub struct WindowRect {
    pub left: i32,
    pub top: i32,
    pub right: i32,
    pub bottom: i32,
}

impl Clone for WindowRect {
    fn clone(&self) -> (r: Self)
        ensures
            r == *self,
    {
        WindowRect { left: self.left, top: self.top, right: self.right, bottom: self.bottom }
    }
}

/// One window as the OS lists it; a property that could not be read is
/// `None`.
pub struct ListedWindow {
    pub id: Option<u32>,
    pub minimized: Option<bool>,
    pub title: Option<String>,
    pub x: Option<i32>,
    pub y: Option<i32>,
    pub width: Option<u32>,
    pub height: Option<u32>,
}

/// Whether the window takes part in the hit test: its id and geometry are
/// readable, it is not the excluded window (`0` excludes none), not
/// minimized, has a non-empty title and a positive size.
pub open spec fn listed_eligible(w: ListedWindow, exclude_id: u32) -> bool {
    &&& w.id is Some
    &&& !(exclude_id != 0 && w.id->0 == exclude_id)
    &&& !(w.minimized == Some(true))
    &&& (w.title matches Some(t) && t@.len() > 0)
    &&& w.x is Some
    &&& w.y is Some
    &&& w.width is Some
    &&& w.height is Some
    &&& (w.width->0 as i32) >= 1
    &&& (w.height->0 as i32) >= 1
}

/// The window's right and bottom edges fit in `i32`.
pub open spec fn listed_fits(w: ListedWindow) -> bool {
    (w.x matches Some(x) && w.width matches Some(wd) ==> i32::MIN <= x + (wd as i32) <= i32::MAX)
        && (w.y matches Some(y) && w.height matches Some(h) ==> i32::MIN <= y + (h as i32)
        <= i32::MAX)
}

/// The point lies inside the window.
pub open spec fn listed_hit(w: ListedWindow, x: i32, y: i32) -> bool {
    let wx = w.x->0;
    let wy = w.y->0;
    let ww = w.width->0 as i32;
    let wh = w.height->0 as i32;
    wx <= x && x < wx + ww && wy <= y && y < wy + wh
}

/// The bounds of a listed window.
pub open spec fn listed_rect(w: ListedWindow) -> WindowRect {
    WindowRect {
        left: w.x->0,
        top: w.y->0,
        right: (w.x->0 + (w.width->0 as i32)) as i32,
        bottom: (w.y->0 + (w.height->0 as i32)) as i32,
    }
}

/// Window `i` is the topmost eligible window under the point.
pub open spec fn is_topmost_hit(ws: Seq<ListedWindow>, i: int, x: i32, y: i32, exclude_id: u32) -> bool {
    &&& 0 <= i < ws.len()
    &&& listed_eligible(ws[i], exclude_id) && listed_hit(ws[i], x, y)
    &&& forall|j: int|
        0 <= j < i ==> !(listed_eligible(#[trigger] ws[j], exclude_id) && listed_hit(
            ws[j],
            x,
            y,
        ))
}

/// Find the topmost visible, non-minimized, titled window containing the
/// point, skipping the window `exclude_id` (the overlay).
pub fn find_window_at(windows: &[ListedWindow], x: i32, y: i32, exclude_id: u32) -> (r: Option<WindowRect>)
    requires
        forall|i: int| 0 <= i < windows@.len() ==> listed_fits(#[trigger] windows@[i]),
    ensures
        match r {
            Some(rect) => exists|i: int|
                is_topmost_hit(windows@, i, x, y, exclude_id) && rect == listed_rect(
                    #[trigger] windows@[i],
                ),
            None => forall|i: int|
                0 <= i < windows@.len() ==> !(listed_eligible(#[trigger] windows@[i], exclude_id)
                    && listed_hit(windows@[i], x, y)),
        },
{
    let mut i: usize = 0;
    while i < windows.len()
        invariant
            i <= windows@.len(),
            forall|k: int| 0 <= k < windows@.len() ==> listed_fits(#[trigger] windows@[k]),
            forall|j: int|
                0 <= j < i ==> !(listed_eligible(#[trigger] windows@[j], exclude_id) && listed_hit(
                    windows@[j],
                    x,
                    y,
                )),
        decreases windows@.len() - i,
    {
        let w = &windows[i];
        assert(listed_fits(windows@[i as int]));
        let eligible = match (&w.id, &w.x, &w.y, &w.width, &w.height) {
            (Some(id), Some(_), Some(_), Some(wd), Some(ht)) => {
                let excluded = exclude_id != 0 && *id == exclude_id;
                let minimized = match w.minimized {
                    Some(m) => m,
                    None => false,
                };
                let titled = match &w.title {
                    Some(t) => !t.as_str().is_empty(),
                    None => false,
                };
                !excluded && !minimized && titled && *wd as i32 >= 1 && *ht as i32 >= 1
            },
            _ => false,
        };
        if eligible {
            let wx = w.x.unwrap();
            let wy = w.y.unwrap();
            let ww = w.width.unwrap() as i32;
            let wh = w.height.unwrap() as i32;
            if wx <= x && x < wx + ww && wy <= y && y < wy + wh {
                let rect = WindowRect { left: wx, top: wy, right: wx + ww, bottom: wy + wh };
                assert(is_topmost_hit(windows@, i as int, x, y, exclude_id));
                return Some(rect);
            }
        }
        i += 1;
    }
    None
}

// -- Detection state shared with the background worker --

/// State shared between the worker that re-runs the hit test and the
/// command that reads its latest answer.
pub struct DetectState {
    /// Current cursor position (updated by the command).
    pub cursor_x: i32,
    pub cursor_y: i32,
    /// Window ID to exclude from detection (the overlay).
    pub exclude_id: u32,
    /// Latest detection result (updated by the worker).
    pub result: Option<WindowRect>,
    /// Whether window capture mode is active.
    pub active: bool,
}

/// The state after `start`.
pub open spec fn after_start(s: DetectState) -> DetectState {
    DetectState { active: true, ..s }
}

/// The state after `stop`: inactive, with no answer kept.
pub open spec fn after_stop(s: DetectState) -> DetectState {
    DetectState { active: false, result: None, ..s }
}

/// The state after `get_window_rect_at(x, y, exclude_id)`.
pub open spec fn after_get(s: DetectState, x: i32, y: i32, exclude_id: u32) -> DetectState {
    DetectState { cursor_x: x, cursor_y: y, exclude_id, ..s }
}

/// The state after the worker stores `r`: kept only while active.
pub open spec fn after_store(s: DetectState, r: Option<WindowRect>) -> DetectState {
    DetectState { result: if s.active { r } else { s.result }, ..s }
}

/// A call on the detection state.
pub enum DetectCall {
    Start,
    Stop,
    GetWindowRectAt(i32, i32, u32),
    PendingQuery,
    StoreResult(Option<WindowRect>),
}

pub open spec fn after_call(s: DetectState, c: DetectCall) -> DetectState {
    match c {
        DetectCall::Start => after_start(s),
        DetectCall::Stop => after_stop(s),
        DetectCall::GetWindowRectAt(x, y, id) => after_get(s, x, y, id),
        DetectCall::PendingQuery => s,
        DetectCall::StoreResult(r) => after_store(s, r),
    }
}

/// The state after the calls `cs`, in order.
pub open spec fn after_calls(s: DetectState, cs: Seq<DetectCall>) -> DetectState
    decreases cs.len(),
{
    if cs.len() == 0 {
        s
    } else {
        after_call(after_calls(s, cs.drop_last()), cs.last())
    }
}

/// After `stop`, detection stays off until the next `start`: whatever the
/// cursor reads and whatever late answers the worker stores, every state
/// reached is inactive with no answer, so `get_window_rect_at` returns
/// `None` and `pending_query` asks for nothing.
pub proof fn law_stopped_detection_reports_nothing(s: DetectState, cs: Seq<DetectCall>, k: int)
    requires
        forall|i: int| 0 <= i < cs.len() ==> !(#[trigger] cs[i] is Start),
        0 <= k <= cs.len(),
    ensures
        !after_calls(after_stop(s), cs.take(k)).active,
        after_calls(after_stop(s), cs.take(k)).result is None,
    decreases k,
{
    if k > 0 {
        law_stopped_detection_reports_nothing(s, cs, k - 1);
        assert(cs.take(k).drop_last() =~= cs.take(k - 1));
        assert(cs.take(k).last() == cs[k - 1]);
        assert(!(cs[k - 1] is Start));
    }
}

impl DetectState {
    /// Idle state: cursor at the origin, nothing detected.
    pub fn new() -> (s: DetectState)
        ensures
            s == (DetectState { cursor_x: 0, cursor_y: 0, exclude_id: 0, result: None, active: false }),
    {
        DetectState { cursor_x: 0, cursor_y: 0, exclude_id: 0, result: None, active: false }
    }

    /// Start the detection worker (when entering window capture mode).
    pub fn start(&mut self)
        ensures
            *final(self) == after_start(*old(self)),
    {
        self.active = true;
    }

    /// Stop detection (when leaving window capture mode); forgets the last
    /// answer.
    pub fn stop(&mut self)
        ensures
            *final(self) == after_stop(*old(self)),
    {
        self.active = false;
        self.result = None;
    }

    /// Update cursor position and return the latest cached detection result.
    pub fn get_window_rect_at(&mut self, x: i32, y: i32, exclude_id: u32) -> (r: Option<WindowRect>)
        ensures
            r == old(self).result,
            *final(self) == after_get(*old(self), x, y, exclude_id),
    {
        self.cursor_x = x;
        self.cursor_y = y;
        self.exclude_id = exclude_id;
        match &self.result {
            Some(r) => Some(r.clone()),
            None => None,
        }
    }

    /// What the worker should look up next: the cursor and the excluded
    /// window while detection is active, nothing while it is stopped.
    pub fn pending_query(&self) -> (q: Option<(i32, i32, u32)>)
        ensures
            q == (if self.active {
                Some((self.cursor_x, self.cursor_y, self.exclude_id))
            } else {
                None
            }),
    {
        if self.active {
            Some((self.cursor_x, self.cursor_y, self.exclude_id))
        } else {
            None
        }
    }

    /// The worker's answer for the latest query. An answer that arrives after
    /// detection was stopped is dropped, so nothing is reported until the
    /// next `start`.
    pub fn store_result(&mut self, result: Option<WindowRect>)
        ensures
            *final(self) == after_store(*old(self), result),
    {
        if self.active {
            self.result = result;
        }
    }
}

// -- Overlay-side detector over a cached window list --

/// A window of the cached list: titled, with a positive size.
#[derive(Debug, PartialEq, Eq)]
pub struct CachedWindow {
    pub title: String,
    pub x: i32,
    pub y: i32,
    pub w: i32,
    pub h: i32,
}

/// The cached entry for a listed window, or `None` when the window is
/// minimized, untitled, too small, or its geometry cannot be read.
pub open spec fn spec_cached_window(
    minimized: Option<bool>,
    title: Option<Seq<char>>,
    x: Option<i32>,
    y: Option<i32>,
    width: Option<u32>,
    height: Option<u32>,
) -> Option<(Seq<char>, i32, i32, i32, i32)> {
    if minimized == Some(true) {
        None
    } else if !(title matches Some(t) && t.len() > 0) {
        None
    } else if x is None || y is None || width is None || height is None {
        None
    } else if (width->0 as i32) < 1 || (height->0 as i32) < 1 {
        None
    } else {
        Some((title->0, x->0, y->0, width->0 as i32, height->0 as i32))
    }
}

/// Builds the cached entry of one listed window (see `spec_cached_window`).
pub fn cached_window(
    minimized: Option<bool>,
    title: Option<String>,
    x: Option<i32>,
    y: Option<i32>,
    width: Option<u32>,
    height: Option<u32>,
) -> (r: Option<CachedWindow>)
    ensures
        match spec_cached_window(
            minimized,
            match title {
                Some(t) => Some(t@),
                None => None,
            },
            x,
            y,
            width,
            height,
        ) {
            Some((t, cx, cy, cw, ch)) => r matches Some(c) && c.title@ == t && c.x == cx && c.y
                == cy && c.w == cw && c.h == ch,
            None => r is None,
        },
{
    if let Some(true) = minimized {
        return None;
    }
    let title = match title {
        Some(t) => t,
        None => String::new(),
    };
    if title.as_str().is_empty() {
        return None;
    }
    match (x, y, width, height) {
        (Some(x), Some(y), Some(wd), Some(ht)) => {
            let w = wd as i32;
            let h = ht as i32;
            if w < 1 || h < 1 {
                None
            } else {
                Some(CachedWindow { title, x, y, w, h })
            }
        },
        _ => None,
    }
}

/// The right and bottom edges of a cached window fit in `i32`.
pub open spec fn cached_fits(c: CachedWindow) -> bool {
    i32::MIN <= c.x + c.w <= i32::MAX && i32::MIN <= c.y + c.h <= i32::MAX
}

/// Whether a cached window is skipped (its title starts with the excluded
/// prefix) or takes part in the hit test at `(x, y)`.
pub open spec fn cached_hit(c: CachedWindow, prefix: Seq<char>, x: i32, y: i32) -> bool {
    &&& !(prefix.len() <= c.title@.len() && c.title@.take(prefix.len() as int) == prefix)
    &&& x >= c.x && x < c.x + c.w && y >= c.y && y < c.y + c.h
}

/// Background-refreshed window list with a hit test against it.
pub struct WindowDetector {
    /// Cached window list, topmost first.
    pub windows: Vec<CachedWindow>,
    pub active: bool,
    /// Windows whose title starts with this are ignored (the overlay's own).
    pub exclude_prefix: String,
}

impl WindowDetector {
    /// An active detector with an empty list.
    pub fn new(exclude_prefix: &str) -> (d: WindowDetector)
        ensures
            d.windows@.len() == 0,
            d.active,
            d.exclude_prefix@ == exclude_prefix@,
    {
        WindowDetector {
            windows: Vec::new(),
            active: true,
            exclude_prefix: String::from_str(exclude_prefix),
        }
    }

    /// Replaces the cached list with a fresh one.
    pub fn set_windows(&mut self, windows: Vec<CachedWindow>)
        ensures
            final(self).windows@ == windows@,
            final(self).active == old(self).active,
            final(self).exclude_prefix == old(self).exclude_prefix,
    {
        self.windows = windows;
    }

    /// Hit-test the cached window list at the given screen coordinates.
    /// Returns the topmost window containing the point.
    pub fn window_at(&self, screen_x: i32, screen_y: i32) -> (r: Option<WindowRect>)
        requires
            forall|i: int| 0 <= i < self.windows@.len() ==> cached_fits(#[trigger] self.windows@[i]),
        ensures
            match r {
                Some(rect) => exists|i: int|
                    0 <= i < self.windows@.len() && cached_hit(
                        #[trigger] self.windows@[i],
                        self.exclude_prefix@,
                        screen_x,
                        screen_y,
                    ) && (forall|j: int|
                        0 <= j < i ==> !cached_hit(
                            #[trigger] self.windows@[j],
                            self.exclude_prefix@,
                            screen_x,
                            screen_y,
                        )) && rect == (WindowRect {
                        left: self.windows@[i].x,
                        top: self.windows@[i].y,
                        right: (self.windows@[i].x + self.windows@[i].w) as i32,
                        bottom: (self.windows@[i].y + self.windows@[i].h) as i32,
                    }),
                None => forall|i: int|
                    0 <= i < self.windows@.len() ==> !cached_hit(
                        #[trigger] self.windows@[i],
                        self.exclude_prefix@,
                        screen_x,
                        screen_y,
                    ),
            },
    {
        let mut i: usize = 0;
        while i < self.windows.len()
            invariant
                i <= self.windows@.len(),
                forall|k: int|
                    0 <= k < self.windows@.len() ==> cached_fits(#[trigger] self.windows@[k]),
                forall|j: int|
                    0 <= j < i ==> !cached_hit(
                        #[trigger] self.windows@[j],
                        self.exclude_prefix@,
                        screen_x,
                        screen_y,
                    ),
            decreases self.windows@.len() - i,
        {
            let w = &self.windows[i];
            assert(cached_fits(self.windows@[i as int]));
            if !starts_with(w.title.as_str(), self.exclude_prefix.as_str()) {
                if screen_x >= w.x && screen_x < w.x + w.w && screen_y >= w.y && screen_y < w.y
                    + w.h {
                    let rect = WindowRect {
                        left: w.x,
                        top: w.y,
                        right: w.x + w.w,
                        bottom: w.y + w.h,
                    };
                    assert(cached_hit(
                        self.windows@[i as int],
                        self.exclude_prefix@,
                        screen_x,
                        screen_y,
                    ));
                    return Some(rect);
                }
            }
            i += 1;
        }
        None
    }

    /// Stops the background refresh.
    pub fn stop(&mut self)
        ensures
            !final(self).active,
            final(self).windows == old(self).windows,
            final(self).exclude_prefix == old(self).exclude_prefix,
    {
        self.active = false;
    }

    /// Whether the background refresh should go on.
    pub fn is_active(&self) -> (r: bool)
        ensures
            r == self.active,
    {
        self.active
    }
}

} // verus!
