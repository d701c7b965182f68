//! The application's shared state: the capture history and the flags that
//! keep captures, annotation and recording from overlapping.

use vstd::prelude::*;
use std::collections::VecDeque;
use crate::config::AppConfig;
use crate::geometry::DesktopBounds;
use crate::recording::pipeline::RecordingRegion;
use crate::text::str_eq;

verus! {

/// The capture history keeps at most this many entries.
pub const MAX_HISTORY: usize = 5;

/// The last `n` elements of `s` (all of them when there are fewer).
pub open spec fn keep_last<A>(s: Seq<A>, n: nat) -> Seq<A> {
    if s.len() <= n {
        s
    } else {
        s.skip(s.len() - n)
    }
}

/// Shared state of the running application. Image buffers and outside
/// handles that go with a capture or a recording are held beside it by the
/// caller; this record holds what the decisions read.
pub struct AppState {
    pub config: AppConfig,
    /// Paths of recent captures, oldest first.
    pub capture_history: VecDeque<String>,
    pub is_capturing: bool,
    pub is_annotating: bool,
    /// Last saved file, used for notification click -> reveal in explorer.
    pub last_saved_path: Option<String>,
    /// Overlay mode: "instant", "freeze", "window", ...
    pub overlay_mode: String,
    /// Desktop bounds cached when the overlay opens.
    pub cached_bounds: Option<(i32, i32, u32, u32)>,
    /// Window ID of the overlay (excluded from window detection).
    pub overlay_window_id: u32,
    pub is_recording: bool,
    pub recording_region: Option<RecordingRegion>,
}

/// What a request to toggle fullscreen recording leads to.
#[derive(Debug, PartialEq, Eq)]
pub enum RecordingToggle {
    /// A recording runs: stop it.
    Stop,
    /// A capture or the annotation editor is open: do nothing.
    Ignore,
    /// Start recording the screen.
    Start,
}

impl AppState {
    /// A capture, an annotation or a recording is under way.
    pub open spec fn busy(&self) -> bool {
        self.is_capturing || self.is_annotating || self.is_recording
    }

    pub fn new(config: AppConfig) -> (s: AppState)
        ensures
            s.config == config,
            s.capture_history@ == Seq::<String>::empty(),
            !s.is_capturing,
            !s.is_annotating,
            !s.is_recording,
            s.last_saved_path is None,
            s.overlay_mode@ == "instant"@,
            s.cached_bounds is None,
            s.overlay_window_id == 0,
            s.recording_region is None,
    {
        AppState {
            config,
            capture_history: VecDeque::new(),
            is_capturing: false,
            is_annotating: false,
            last_saved_path: None,
            overlay_mode: String::from_str("instant"),
            cached_bounds: None,
            overlay_window_id: 0,
            is_recording: false,
            recording_region: None,
        }
    }

    /// Appends a path to the history, dropping the oldest entries beyond
    /// `MAX_HISTORY`.
    pub fn add_to_history(&mut self, path: String)
        ensures
            final(self).capture_history@ == keep_last(
                old(self).capture_history@.push(path),
                MAX_HISTORY as nat,
            ),
            final(self).capture_history@.len() <= MAX_HISTORY,
            final(self).config == old(self).config,
            final(self).is_capturing == old(self).is_capturing,
            final(self).is_annotating == old(self).is_annotating,
            final(self).is_recording == old(self).is_recording,
            final(self).last_saved_path == old(self).last_saved_path,
            final(self).overlay_mode == old(self).overlay_mode,
            final(self).cached_bounds == old(self).cached_bounds,
            final(self).overlay_window_id == old(self).overlay_window_id,
            final(self).recording_region == old(self).recording_region,
    {
        let ghost full = old(self).capture_history@.push(path);
        self.capture_history.push_back(path);
        while self.capture_history.len() > MAX_HISTORY
            invariant
                *self == (AppState { capture_history: self.capture_history, ..*old(self) }),
                full.len() >= self.capture_history@.len(),
                self.capture_history@ == full.skip(full.len() - self.capture_history@.len()),
                self.capture_history@.len() >= MAX_HISTORY || self.capture_history@ == full,
            decreases self.capture_history@.len(),
        {
            self.capture_history.pop_front();
            assert(self.capture_history@ =~= full.skip(full.len() - self.capture_history@.len()));
        }
        proof {
            assert(full.skip(0) =~= full);
        }
    }

    /// Whether a new capture, annotation or recording may start.
    pub fn is_busy(&self) -> (r: bool)
        ensures
            r == self.busy(),
    {
        self.is_capturing || self.is_annotating || self.is_recording
    }

    /// Claims the capture slot for an overlay in `mode`. Refused, with the
    /// state unchanged, while a capture, annotation or recording is under
    /// way.
    pub fn try_begin_capture(&mut self, mode: &str) -> (started: bool)
        ensures
            begin_capture_post(*old(self), mode@, started, *final(self)),
    {
        if self.is_capturing || self.is_annotating || self.is_recording {
            return false;
        }
        self.is_capturing = true;
        self.overlay_mode = String::from_str(mode);
        true
    }

    /// Releases the capture slot after the overlay could not be opened.
    pub fn abort_capture(&mut self)
        ensures
            *final(self) == (AppState { is_capturing: false, ..*old(self) }),
    {
        self.is_capturing = false;
    }

    /// Clears the capture state once the overlay is gone.
    pub fn reset_capture_state(&mut self)
        ensures
            *final(self) == after_reset(*old(self)),
    {
        self.is_capturing = false;
        self.cached_bounds = None;
    }

    /// Remembers the desktop bounds for the capture under way.
    pub fn cache_bounds(&mut self, b: &DesktopBounds)
        ensures
            *final(self) == (AppState {
                cached_bounds: Some((b.x, b.y, b.width, b.height)),
                ..*old(self)
            }),
    {
        self.cached_bounds = Some((b.x, b.y, b.width, b.height));
    }

    /// The cached desktop bounds, if any.
    pub fn cached_desktop_bounds(&self) -> (r: Option<DesktopBounds>)
        ensures
            match self.cached_bounds {
                Some((x, y, w, h)) => r matches Some(b) && b.x == x && b.y == y && b.width == w
                    && b.height == h,
                None => r is None,
            },
    {
        match self.cached_bounds {
            Some((x, y, w, h)) => Some(DesktopBounds { x, y, width: w, height: h }),
            None => None,
        }
    }

    /// Records a saved file: appended to the history and remembered as the
    /// last one saved.
    pub fn record_saved(&mut self, path: String)
        ensures
            final(self).capture_history@ == keep_last(
                old(self).capture_history@.push(path),
                MAX_HISTORY as nat,
            ),
            final(self).last_saved_path == Some(path),
            final(self).config == old(self).config,
            final(self).is_capturing == old(self).is_capturing,
            final(self).is_annotating == old(self).is_annotating,
            final(self).is_recording == old(self).is_recording,
            final(self).overlay_mode == old(self).overlay_mode,
            final(self).cached_bounds == old(self).cached_bounds,
            final(self).overlay_window_id == old(self).overlay_window_id,
            final(self).recording_region == old(self).recording_region,
    {
        let p = path.clone();
        self.add_to_history(path);
        self.last_saved_path = Some(p);
    }

    /// Claims the annotation editor for a file opened from disk. Refused,
    /// with the state unchanged, while anything else is under way.
    pub fn try_begin_annotation(&mut self) -> (started: bool)
        ensures
            started == !old(self).busy(),
            !started ==> *final(self) == *old(self),
            started ==> *final(self) == (AppState { is_annotating: true, ..*old(self) }),
    {
        if self.is_capturing || self.is_annotating || self.is_recording {
            return false;
        }
        self.is_annotating = true;
        true
    }

    /// Marks the annotation editor open (after a capture hands it an image).
    pub fn begin_annotation(&mut self)
        ensures
            *final(self) == (AppState { is_annotating: true, ..*old(self) }),
    {
        self.is_annotating = true;
    }

    /// Marks the annotation editor closed.
    pub fn end_annotation(&mut self)
        ensures
            *final(self) == (AppState { is_annotating: false, ..*old(self) }),
    {
        self.is_annotating = false;
    }

    /// What toggling fullscreen recording does in this state.
    pub fn recording_toggle(&self) -> (r: RecordingToggle)
        ensures
            self.is_recording ==> r is Stop,
            !self.is_recording && (self.is_capturing || self.is_annotating) ==> r is Ignore,
            !self.busy() ==> r is Start,
    {
        if self.is_recording {
            RecordingToggle::Stop
        } else if self.is_capturing || self.is_annotating {
            RecordingToggle::Ignore
        } else {
            RecordingToggle::Start
        }
    }

    /// Marks a recording as running, over `region` (`None`: the whole screen).
    pub fn begin_recording(&mut self, region: Option<RecordingRegion>)
        ensures
            *final(self) == (AppState {
                is_recording: true,
                recording_region: region,
                ..*old(self)
            }),
    {
        self.is_recording = true;
        self.recording_region = region;
    }

    /// Claims the recorder for a region chosen in the overlay: refused, with
    /// the state unchanged, while annotating or recording; otherwise the
    /// overlay's capture slot passes to the recording.
    pub fn try_begin_region_recording(&mut self) -> (started: bool)
        ensures
            started == !(old(self).is_annotating || old(self).is_recording),
            !started ==> *final(self) == *old(self),
            started ==> *final(self) == (AppState {
                is_recording: true,
                is_capturing: false,
                ..*old(self)
            }),
    {
        if self.is_annotating || self.is_recording {
            return false;
        }
        self.is_recording = true;
        self.is_capturing = false;
        true
    }

    /// Clears what a closed window held: the overlay's capture slot and id,
    /// or the annotation editor's flag.
    pub fn on_window_destroyed(&mut self, label: &str)
        ensures
            label@ == "overlay"@ ==> *final(self) == (AppState {
                is_capturing: false,
                overlay_window_id: 0,
                ..*old(self)
            }),
            label@ == "annotation"@ ==> *final(self) == (AppState { is_annotating: false, ..*old(self) }),
            label@ != "overlay"@ && label@ != "annotation"@ ==> *final(self) == *old(self),
    {
        proof {
            reveal_strlit("overlay");
            reveal_strlit("annotation");
            assert("overlay"@.len() != "annotation"@.len());
        }
        if str_eq(label, "overlay") {
            self.is_capturing = false;
            self.overlay_window_id = 0;
        } else if str_eq(label, "annotation") {
            self.is_annotating = false;
        }
    }

    /// The file the recording indicator offers once recording has stopped:
    /// the last saved file, and nothing while a recording runs.
    pub fn saved_recording_path(&self) -> (r: Option<String>)
        ensures
            r == (if self.is_recording { None } else { self.last_saved_path }),
    {
        if self.is_recording {
            None
        } else {
            match &self.last_saved_path {
                Some(p) => Some(p.clone()),
                None => None,
            }
        }
    }

    /// Ends the recording state; returns whether a recording was running.
    pub fn end_recording(&mut self) -> (was_recording: bool)
        ensures
            was_recording == old(self).is_recording,
            *final(self) == (AppState {
                is_recording: false,
                recording_region: None,
                ..*old(self)
            }),
    {
        let was = self.is_recording;
        self.is_recording = false;
        self.recording_region = None;
        was
    }
}

/// What `try_begin_capture` leaves behind: granted exactly when nothing is
/// under way, and then only the capture flag and the overlay mode change.
pub open spec fn begin_capture_post(s0: AppState, mode: Seq<char>, started: bool, s1: AppState) -> bool {
    &&& started == !s0.busy()
    &&& !started ==> s1 == s0
    &&& started ==> s1 == (AppState { is_capturing: true, overlay_mode: s1.overlay_mode, ..s0 })
    &&& started ==> s1.overlay_mode@ == mode
}

/// The state after `reset_capture_state`.
pub open spec fn after_reset(s: AppState) -> AppState {
    AppState { is_capturing: false, cached_bounds: None, ..s }
}

/// Duplicate-capture prevention: once a capture request is granted, a
/// second request is refused and leaves the state as the first left it, so
/// rapid hotkey presses open a single overlay.
pub proof fn law_second_capture_refused(
    s0: AppState,
    m1: Seq<char>,
    b1: bool,
    s1: AppState,
    m2: Seq<char>,
    b2: bool,
    s2: AppState,
)
    requires
        begin_capture_post(s0, m1, b1, s1),
        b1,
        begin_capture_post(s1, m2, b2, s2),
    ensures
        !b2,
        s2 == s1,
{
}

/// Captures are never blocked for good: resetting the capture state while
/// neither the annotation editor nor a recording is open makes the next
/// capture request succeed.
pub proof fn law_reset_unblocks_capture(s0: AppState, mode: Seq<char>, b: bool, s2: AppState)
    requires
        !s0.is_annotating,
        !s0.is_recording,
        begin_capture_post(after_reset(s0), mode, b, s2),
    ensures
        b,
        s2.is_capturing,
{
}

/// The history never holds more than `MAX_HISTORY` paths, the newest path
/// is always its last entry, and nothing is dropped while there is room.
pub proof fn law_history_bounded(h: Seq<String>, p: String)
    ensures
        keep_last(h.push(p), MAX_HISTORY as nat).len() <= MAX_HISTORY,
        keep_last(h.push(p), MAX_HISTORY as nat).last() == p,
        h.len() < MAX_HISTORY ==> keep_last(h.push(p), MAX_HISTORY as nat) == h.push(p),
{
}

} // verus!
