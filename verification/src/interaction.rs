//! Mouse / keyboard state machine for all capture modes.
//!
//! Pointer coordinates are floating point and stay with the caller; this
//! machine holds the phase of the interaction and the discrete choices made
//! in it. Where a transition depends on coordinates, the caller passes the
//! outcome of the comparison (a drag too small to count as a selection, the
//! integer cursor position used for monitor hit-testing).

use vstd::prelude::*;
use crate::geometry::{monitor_at, monitor_rect_fits, spec_monitor_at, MonitorRect};
use crate::protocol::CaptureMode;

verus! {

/// Current interaction state.
#[derive(Debug, Clone, Copy, PartialEq, Eq, Structural)]
pub enum Phase {
    /// Waiting for user input.
    Idle,
    /// Mouse is held down, dragging a selection rectangle (region mode).
    Dragging,
    /// Selection complete.
    Done,
    /// User cancelled.
    Cancelled,
}

/// Tracks all interaction modes.
pub struct Interaction {
    pub mode: CaptureMode,
    pub phase: Phase,
    /// Modifiers held when the mouse was released.
    pub shift: bool,
    pub alt: bool,
    /// Window mode: a window is highlighted under the cursor.
    pub has_hovered_window: bool,
    /// Window mode: the selected window (screen-space left, top, right, bottom).
    pub selected_window: Option<(i32, i32, i32, i32)>,
    /// Select-screen mode: all monitors, bounds in window-local coordinates.
    pub monitors: Vec<MonitorRect>,
    /// Position in `monitors` of the hovered monitor.
    pub hovered_monitor: Option<usize>,
    /// Position in `monitors` of the selected monitor.
    pub selected_monitor: Option<usize>,
}

/// Region-drawing modes (everything but window and screen selection).
pub open spec fn is_region_mode(m: CaptureMode) -> bool {
    !(m is Window) && !(m is SelectScreen)
}

/// The state after a mouse press.
pub open spec fn mouse_down_next(s: Interaction) -> Interaction {
    match s.mode {
        CaptureMode::Window => if s.has_hovered_window || s.selected_window is Some {
            Interaction { phase: Phase::Done, ..s }
        } else {
            s
        },
        CaptureMode::SelectScreen => if s.hovered_monitor is Some {
            Interaction { selected_monitor: s.hovered_monitor, phase: Phase::Done, ..s }
        } else {
            s
        },
        _ => if s.phase == Phase::Idle {
            Interaction { phase: Phase::Dragging, ..s }
        } else {
            s
        },
    }
}

/// The state after a mouse release; `too_small` says that the dragged
/// rectangle is narrower or lower than the minimum selection size.
pub open spec fn mouse_up_next(s: Interaction, too_small: bool, shift: bool, alt: bool) -> Interaction {
    let t = Interaction { shift, alt, ..s };
    if is_region_mode(s.mode) && s.phase == Phase::Dragging {
        Interaction { phase: if too_small { Phase::Cancelled } else { Phase::Done }, ..t }
    } else {
        t
    }
}

impl Interaction {
    pub fn new(mode: CaptureMode) -> (s: Interaction)
        ensures
            s.mode == mode,
            s.phase == Phase::Idle,
            !s.shift,
            !s.alt,
            !s.has_hovered_window,
            s.selected_window is None,
            s.monitors@.len() == 0,
            s.hovered_monitor is None,
            s.selected_monitor is None,
    {
        Interaction {
            mode,
            phase: Phase::Idle,
            shift: false,
            alt: false,
            has_hovered_window: false,
            selected_window: None,
            monitors: Vec::new(),
            hovered_monitor: None,
            selected_monitor: None,
        }
    }

    /// Mouse press. In region modes an idle machine starts dragging, and the
    /// result says so (the caller then records the drag's start point);
    /// window and screen modes complete on a click over a target.
    pub fn mouse_down(&mut self) -> (starts_drag: bool)
        ensures
            *final(self) == mouse_down_next(*old(self)),
            starts_drag == (is_region_mode(old(self).mode) && old(self).phase == Phase::Idle),
    {
        match self.mode {
            CaptureMode::Window => {
                if self.has_hovered_window || self.selected_window.is_some() {
                    self.phase = Phase::Done;
                }
                false
            },
            CaptureMode::SelectScreen => {
                if self.hovered_monitor.is_some() {
                    self.selected_monitor = self.hovered_monitor;
                    self.phase = Phase::Done;
                }
                false
            },
            _ => {
                if self.phase != Phase::Idle {
                    return false;
                }
                self.phase = Phase::Dragging;
                true
            },
        }
    }

    /// Mouse release with the modifiers held. In region modes a drag ends:
    /// done, or cancelled when the rectangle is too small. The result says
    /// whether a drag ended (the caller then records the end point).
    pub fn mouse_up(&mut self, too_small: bool, shift: bool, alt: bool) -> (ends_drag: bool)
        ensures
            *final(self) == mouse_up_next(*old(self), too_small, shift, alt),
            ends_drag == (is_region_mode(old(self).mode) && old(self).phase == Phase::Dragging),
    {
        self.shift = shift;
        self.alt = alt;
        match self.mode {
            CaptureMode::Window | CaptureMode::SelectScreen => false,
            _ => {
                if self.phase != Phase::Dragging {
                    return false;
                }
                self.phase = if too_small {
                    Phase::Cancelled
                } else {
                    Phase::Done
                };
                true
            },
        }
    }

    pub fn cancel(&mut self)
        ensures
            *final(self) == (Interaction { phase: Phase::Cancelled, ..*old(self) }),
    {
        self.phase = Phase::Cancelled;
    }

    /// Update the hovered window highlight (window mode).
    pub fn set_hovered_window(&mut self, present: bool)
        ensures
            *final(self) == (Interaction { has_hovered_window: present, ..*old(self) }),
    {
        self.has_hovered_window = present;
    }

    /// Set the selected window bounds (screen-space).
    pub fn set_selected_window(&mut self, left: i32, top: i32, right: i32, bottom: i32)
        ensures
            *final(self) == (Interaction {
                selected_window: Some((left, top, right, bottom)),
                ..*old(self)
            }),
    {
        self.selected_window = Some((left, top, right, bottom));
    }

    /// Set up the monitor list.
    pub fn set_monitors(&mut self, monitors: Vec<MonitorRect>)
        ensures
            final(self).monitors@ == monitors@,
            final(self).mode == old(self).mode,
            final(self).phase == old(self).phase,
            final(self).shift == old(self).shift,
            final(self).alt == old(self).alt,
            final(self).has_hovered_window == old(self).has_hovered_window,
            final(self).selected_window == old(self).selected_window,
            final(self).hovered_monitor == old(self).hovered_monitor,
            final(self).selected_monitor == old(self).selected_monitor,
    {
        self.monitors = monitors;
    }

    /// Update the hovered monitor from the cursor position (window-local,
    /// truncated to whole pixels): the first monitor containing it.
    pub fn update_hovered_monitor(&mut self, cx: i32, cy: i32)
        requires
            forall|i: int|
                0 <= i < old(self).monitors@.len() ==> monitor_rect_fits(
                    #[trigger] old(self).monitors@[i],
                ),
        ensures
            final(self).hovered_monitor == spec_monitor_at(old(self).monitors@, cx, cy),
            final(self).monitors@ == old(self).monitors@,
            final(self).mode == old(self).mode,
            final(self).phase == old(self).phase,
            final(self).shift == old(self).shift,
            final(self).alt == old(self).alt,
            final(self).has_hovered_window == old(self).has_hovered_window,
            final(self).selected_window == old(self).selected_window,
            final(self).selected_monitor == old(self).selected_monitor,
    {
        let h = monitor_at(self.monitors.as_slice(), cx, cy);
        self.hovered_monitor = h;
    }

    /// Whether a region selection is shown (dragging or done, region modes).
    pub fn has_selection(&self) -> (r: bool)
        ensures
            r == ((self.phase == Phase::Dragging || self.phase == Phase::Done) && is_region_mode(
                self.mode,
            )),
    {
        if self.phase != Phase::Dragging && self.phase != Phase::Done {
            return false;
        }
        match self.mode {
            CaptureMode::Window | CaptureMode::SelectScreen => false,
            _ => true,
        }
    }

    /// Whether a region result is available: the selection is done in a
    /// region mode.
    pub fn region_done(&self) -> (r: bool)
        ensures
            r == (self.phase == Phase::Done && is_region_mode(self.mode)),
    {
        self.phase == Phase::Done && self.has_selection()
    }

    /// Final window result (screen-space bounds and modifiers).
    pub fn window_result(&self) -> (r: Option<(i32, i32, i32, i32, bool, bool)>)
        ensures
            r == (if self.phase == Phase::Done && self.selected_window is Some {
                let (l, t, rr, b) = self.selected_window->0;
                Some((l, t, rr, b, self.shift, self.alt))
            } else {
                None
            }),
    {
        if self.phase != Phase::Done {
            return None;
        }
        match self.selected_window {
            Some((left, top, right, bottom)) => Some((left, top, right, bottom, self.shift, self.alt)),
            None => None,
        }
    }

    /// Final select_screen result: the chosen monitor's own index.
    pub fn screen_result(&self) -> (r: Option<usize>)
        ensures
            r == (if self.phase == Phase::Done && self.selected_monitor is Some
                && self.selected_monitor->0 < self.monitors@.len() {
                Some(self.monitors@[self.selected_monitor->0 as int].index)
            } else {
                None
            }),
    {
        if self.phase != Phase::Done {
            return None;
        }
        match self.selected_monitor {
            Some(i) => {
                if i < self.monitors.len() {
                    Some(self.monitors[i].index)
                } else {
                    None
                }
            },
            None => None,
        }
    }
}

/// An input event of an overlay window, with what the caller computed from
/// its coordinates.
#[derive(Debug, Clone, Copy, PartialEq, Eq)]
pub enum OverlayEvent {
    /// The window needs repainting.
    Redraw,
    /// The pointer moved (the caller has recorded its position).
    CursorMoved,
    LeftPressed,
    /// Left button released; `too_small` when the dragged rectangle is
    /// below the minimum selection size.
    LeftReleased { too_small: bool },
    RightPressed,
    /// Another button changed state.
    OtherButton,
    /// The held modifiers changed.
    Modifiers { shift: bool, alt: bool },
    EscapePressed,
    FocusLost,
    CloseRequested,
}

/// What the overlay does after an event.
#[derive(Debug, Clone, Copy, PartialEq, Eq)]
pub struct EventOutcome {
    /// Send the answer and close the overlay.
    pub finish: bool,
    /// Re-run window detection and repaint.
    pub redraw: bool,
}

/// The interaction has ended.
pub open spec fn ended(s: Interaction) -> bool {
    s.phase == Phase::Done || s.phase == Phase::Cancelled
}

/// The state after an event. Losing focus cancels an interaction that has
/// not started when `cancel_on_focus_loss` (all platforms but macOS).
pub open spec fn event_next(s: Interaction, ev: OverlayEvent, cancel_on_focus_loss: bool) -> Interaction {
    match ev {
        OverlayEvent::LeftPressed => mouse_down_next(s),
        OverlayEvent::LeftReleased { too_small } => mouse_up_next(s, too_small, s.shift, s.alt),
        OverlayEvent::RightPressed => Interaction { phase: Phase::Cancelled, ..s },
        OverlayEvent::Modifiers { shift, alt } => Interaction { shift, alt, ..s },
        OverlayEvent::EscapePressed => Interaction { phase: Phase::Cancelled, ..s },
        OverlayEvent::FocusLost => if cancel_on_focus_loss && s.phase == Phase::Idle {
            Interaction { phase: Phase::Cancelled, ..s }
        } else {
            s
        },
        OverlayEvent::CloseRequested => Interaction { phase: Phase::Cancelled, ..s },
        _ => s,
    }
}

/// Whether the overlay answers the host after the event.
pub open spec fn event_finishes(s: Interaction, ev: OverlayEvent, cancel_on_focus_loss: bool) -> bool {
    match ev {
        OverlayEvent::LeftPressed | OverlayEvent::LeftReleased { .. } | OverlayEvent::RightPressed
        | OverlayEvent::OtherButton => ended(event_next(s, ev, cancel_on_focus_loss)),
        OverlayEvent::EscapePressed | OverlayEvent::CloseRequested => true,
        OverlayEvent::FocusLost => cancel_on_focus_loss && s.phase == Phase::Idle,
        _ => false,
    }
}

impl Interaction {
    /// Applies an overlay window event; says whether to finish or repaint.
    pub fn handle_event(&mut self, ev: OverlayEvent, cancel_on_focus_loss: bool) -> (o: EventOutcome)
        ensures
            *final(self) == event_next(*old(self), ev, cancel_on_focus_loss),
            o.finish == event_finishes(*old(self), ev, cancel_on_focus_loss),
            o.redraw == (ev == OverlayEvent::Redraw || ev == OverlayEvent::CursorMoved),
    {
        let mut finish = false;
        let mut redraw = false;
        match ev {
            OverlayEvent::Redraw | OverlayEvent::CursorMoved => {
                redraw = true;
            },
            OverlayEvent::LeftPressed | OverlayEvent::LeftReleased { .. }
            | OverlayEvent::RightPressed | OverlayEvent::OtherButton => {
                match ev {
                    OverlayEvent::LeftPressed => {
                        self.mouse_down();
                    },
                    OverlayEvent::LeftReleased { too_small } => {
                        let (shift, alt) = (self.shift, self.alt);
                        self.mouse_up(too_small, shift, alt);
                    },
                    OverlayEvent::RightPressed => self.cancel(),
                    _ => {},
                }
                finish = self.phase == Phase::Done || self.phase == Phase::Cancelled;
            },
            OverlayEvent::Modifiers { shift, alt } => {
                self.shift = shift;
                self.alt = alt;
            },
            OverlayEvent::EscapePressed | OverlayEvent::CloseRequested => {
                self.cancel();
                finish = true;
            },
            OverlayEvent::FocusLost => {
                if cancel_on_focus_loss && self.phase == Phase::Idle {
                    self.cancel();
                    finish = true;
                }
            },
        }
        EventOutcome { finish, redraw }
    }
}

/// Escape and closing the window always end the interaction as cancelled.
pub proof fn law_escape_cancels(s: Interaction, cancel_on_focus_loss: bool)
    ensures
        event_next(s, OverlayEvent::EscapePressed, cancel_on_focus_loss).phase == Phase::Cancelled,
        event_finishes(s, OverlayEvent::EscapePressed, cancel_on_focus_loss),
        event_next(s, OverlayEvent::CloseRequested, cancel_on_focus_loss).phase == Phase::Cancelled,
        event_finishes(s, OverlayEvent::CloseRequested, cancel_on_focus_loss),
{
}

/// A finished region selection stays finished: once done or cancelled,
/// further presses and releases do not change the phase.
pub proof fn law_finished_selection_is_stable(s: Interaction, too_small: bool, shift: bool, alt: bool)
    requires
        is_region_mode(s.mode),
        s.phase == Phase::Done || s.phase == Phase::Cancelled,
    ensures
        mouse_down_next(s).phase == s.phase,
        mouse_up_next(s, too_small, shift, alt).phase == s.phase,
{
}

/// A drag smaller than the minimum selection size yields no region: the
/// release cancels the interaction.
pub proof fn law_small_drag_cancels(s: Interaction, shift: bool, alt: bool)
    requires
        is_region_mode(s.mode),
        s.phase == Phase::Dragging,
    ensures
        mouse_up_next(s, true, shift, alt).phase == Phase::Cancelled,
        mouse_up_next(s, false, shift, alt).phase == Phase::Done,
{
}

} // verus!
