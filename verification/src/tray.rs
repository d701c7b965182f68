//! Tray menu text: hotkey labels, the entries of the recent-captures
//! submenu, and the menu ids they are addressed by.

use vstd::prelude::*;
use crate::config::AppConfig;
use crate::text::{decimal, push_decimal, replace_all, spec_replace, str_chars, str_eq};

verus! {


/// A hotkey as the tray menu shows it on Windows: `CmdOrCtrl` reads `Ctrl`
/// and `Backquote` reads as the backquote character.
pub open spec fn hotkey_label(raw: Seq<char>) -> Seq<char> {
    spec_replace(spec_replace(raw, "CmdOrCtrl"@, "Ctrl"@), "Backquote"@, "`"@)
}

/// A hotkey as the tray menu shows it on macOS: modifier names become their
/// symbols and the `+` separators are dropped.
pub open spec fn hotkey_label_macos(raw: Seq<char>) -> Seq<char> {
    spec_replace(
        spec_replace(
            spec_replace(
                spec_replace(spec_replace(raw, "CmdOrCtrl"@, "\u{2318}"@), "Alt"@, "\u{2325}"@),
                "Shift"@,
                "\u{21e7}"@,
            ),
            "Backquote"@,
            "`"@,
        ),
        "+"@,
        ""@,
    )
}

/// The label of a hotkey in the tray menu (Windows spelling).
pub fn format_hotkey_display(raw: &str) -> (r: String)
    ensures
        r@ == hotkey_label(raw@),
{
    proof {
        reveal_strlit("CmdOrCtrl");
        reveal_strlit("Backquote");
    }
    let a = replace_all(raw, "CmdOrCtrl", "Ctrl");
    replace_all(a.as_str(), "Backquote", "`")
}

/// The label of a hotkey in the tray menu (macOS spelling).
pub fn format_hotkey_display_macos(raw: &str) -> (r: String)
    ensures
        r@ == hotkey_label_macos(raw@),
{
    proof {
        reveal_strlit("CmdOrCtrl");
        reveal_strlit("Alt");
        reveal_strlit("Shift");
        reveal_strlit("Backquote");
        reveal_strlit("+");
    }
    let a = replace_all(raw, "CmdOrCtrl", "\u{2318}");
    let b = replace_all(a.as_str(), "Alt", "\u{2325}");
    let c = replace_all(b.as_str(), "Shift", "\u{21e7}");
    let d = replace_all(c.as_str(), "Backquote", "`");
    replace_all(d.as_str(), "+", "")
}

// -- Recent captures --

/// One entry of the recent-captures submenu.
#[derive(Debug, PartialEq, Eq)]
pub struct MenuEntry {
    pub id: String,
    pub label: String,
}

/// The menu id of history entry `idx`.
pub open spec fn history_id(idx: nat) -> Seq<char> {
    "history_"@ + decimal(idx)
}

/// Entry `i` of the submenu (newest first) for a history whose file names
/// are `names` (oldest first; `None` where a path has no file name).
pub open spec fn history_entry_ok(names: Seq<Option<String>>, i: int, e: MenuEntry) -> bool {
    let idx = names.len() - 1 - i;
    &&& e.id@ == history_id(idx as nat)
    &&& e.label@ == match names[idx] {
        Some(n) => n@,
        None => "Capture "@ + decimal((i + 1) as nat),
    }
}

/// The recent-captures submenu, newest capture first. Each entry is labelled
/// with the file name (or `Capture N` by its position in the menu) and
/// carries the id of its position in the history.
pub fn history_menu_entries(names: &[Option<String>]) -> (r: Vec<MenuEntry>)
    ensures
        r@.len() == names@.len(),
        forall|i: int| 0 <= i < names@.len() ==> history_entry_ok(names@, i, #[trigger] r@[i]),
{
    let n = names.len();
    let mut out: Vec<MenuEntry> = Vec::new();
    let mut i: usize = 0;
    while i < n
        invariant
            n == names@.len(),
            i <= n,
            out@.len() == i,
            forall|k: int| 0 <= k < i ==> history_entry_ok(names@, k, #[trigger] out@[k]),
        decreases n - i,
    {
        let idx = n - 1 - i;
        let mut id = String::from_str("history_");
        push_decimal(&mut id, idx as u64);
        let label = match &names[idx] {
            Some(name) => name.clone(),
            None => {
                let mut l = String::from_str("Capture ");
                push_decimal(&mut l, (i + 1) as u64);
                l
            },
        };
        let e = MenuEntry { id, label };
        assert(history_entry_ok(names@, i as int, e));
        out.push(e);
        i += 1;
    }
    out
}

/// The value of a string of ASCII digits.
pub open spec fn digits_value(s: Seq<char>) -> nat
    decreases s.len(),
{
    if s.len() == 0 {
        0
    } else {
        digits_value(s.drop_last()) * 10 + (s.last() as nat - '0' as nat) as nat
    }
}

pub open spec fn is_digit(c: char) -> bool {
    '0' <= c && c <= '9'
}

/// The text after an optional leading `+`.
pub open spec fn unsigned_digits(s: Seq<char>) -> Seq<char> {
    if s.len() > 0 && s[0] == '+' {
        s.skip(1)
    } else {
        s
    }
}

/// Every character is an ASCII digit.
pub open spec fn all_digits(d: Seq<char>) -> bool {
    forall|i: int| 0 <= i < d.len() ==> is_digit(#[trigger] d[i])
}

/// `str::parse::<usize>`: an optional `+`, then one or more ASCII digits
/// whose value fits in `usize`.
pub open spec fn spec_parse_usize(s: Seq<char>) -> Option<usize> {
    let d = unsigned_digits(s);
    if d.len() > 0 && all_digits(d) && digits_value(d) <= usize::MAX {
        Some(digits_value(d) as usize)
    } else {
        None
    }
}

/// Parses a decimal `usize` as `str::parse` does.
pub fn parse_usize(s: &str) -> (r: Option<usize>)
    ensures
        r == spec_parse_usize(s@),
{
    let cs = str_chars(s);
    let start: usize = if cs.len() > 0 && cs[0] == '+' { 1 } else { 0 };
    let ghost d = unsigned_digits(s@);
    assert(d =~= cs@.skip(start as int));
    if start >= cs.len() {
        return None;
    }
    let mut i: usize = start;
    let mut acc: usize = 0;
    let mut overflow = false;
    while i < cs.len()
        invariant
            cs@ == s@,
            start <= i <= cs@.len(),
            d == cs@.skip(start as int),
            d == unsigned_digits(s@),
            forall|k: int| start <= k < i ==> is_digit(#[trigger] cs@[k]),
            !overflow ==> acc == digits_value(d.take(i - start)),
            overflow ==> digits_value(d.take(i - start)) > usize::MAX,
        decreases cs@.len() - i,
    {
        let c = cs[i];
        if !('0' <= c && c <= '9') {
            assert(!is_digit(d[i - start]));
            assert(!all_digits(d));
            return None;
        }
        let ghost prev = d.take(i - start);
        assert(d.take(i - start + 1).drop_last() =~= prev);
        assert(d.take(i - start + 1).last() == c);
        let dv = (c as u32 - '0' as u32) as usize;
        if !overflow {
            match acc.checked_mul(10) {
                Some(m) => match m.checked_add(dv) {
                    Some(v) => {
                        acc = v;
                    },
                    None => {
                        overflow = true;
                    },
                },
                None => {
                    overflow = true;
                },
            }
        } else {
            assert(digits_value(prev) * 10 >= digits_value(prev)) by (nonlinear_arith);
        }
        i += 1;
    }
    assert(d.take(i - start) =~= d);
    if overflow {
        None
    } else {
        Some(acc)
    }
}

/// The history position addressed by a menu id `history_N`.
pub fn history_index(id: &str) -> (r: Option<usize>)
    ensures
        r == (if id@.len() >= 8 && id@.take(8) == "history_"@ {
            spec_parse_usize(id@.skip(8))
        } else {
            None
        }),
{
    proof {
        reveal_strlit("history_");
    }
    let cs = str_chars(id);
    let prefix = str_chars("history_");
    if cs.len() < 8 {
        return None;
    }
    let mut k: usize = 0;
    while k < 8
        invariant
            cs@ == id@,
            prefix@ == "history_"@,
            prefix@.len() == 8,
            cs@.len() >= 8,
            k <= 8,
            forall|j: int| 0 <= j < k ==> cs@[j] == prefix@[j],
        decreases 8 - k,
    {
        if cs[k] != prefix[k] {
            assert(id@.take(8)[k as int] != "history_"@[k as int]);
            return None;
        }
        k += 1;
    }
    assert(id@.take(8) =~= "history_"@);
    let mut rest = String::new();
    let mut i: usize = 8;
    while i < cs.len()
        invariant
            cs@ == id@,
            8 <= i <= cs@.len(),
            rest@ == cs@.subrange(8, i as int),
        decreases cs@.len() - i,
    {
        crate::text::push_char(&mut rest, cs[i]);
        i += 1;
        assert(rest@ =~= cs@.subrange(8, i as int));
    }
    assert(rest@ =~= id@.skip(8));
    parse_usize(rest.as_str())
}

/// What a tray menu item does.
#[derive(Debug, PartialEq, Eq)]
pub enum MenuAction {
    CaptureRegion,
    CaptureWindow,
    CaptureFullscreen,
    RecordScreen,
    RecordRegion,
    StopRecording,
    OcrRegion,
    Upload,
    AnnotateFile,
    Settings,
    Exit,
    /// Reveal history entry `N` in the file manager.
    History(usize),
    /// No such item.
    Unknown,
}

/// The fixed menu items and their ids.
pub open spec fn fixed_menu_action(id: Seq<char>) -> Option<MenuAction> {
    if id == "capture_region"@ {
        Some(MenuAction::CaptureRegion)
    } else if id == "capture_window"@ {
        Some(MenuAction::CaptureWindow)
    } else if id == "capture_fullscreen"@ {
        Some(MenuAction::CaptureFullscreen)
    } else if id == "record_screen"@ {
        Some(MenuAction::RecordScreen)
    } else if id == "record_region"@ {
        Some(MenuAction::RecordRegion)
    } else if id == "stop_recording"@ {
        Some(MenuAction::StopRecording)
    } else if id == "ocr_region"@ {
        Some(MenuAction::OcrRegion)
    } else if id == "upload_imgur"@ {
        Some(MenuAction::Upload)
    } else if id == "annotate_file"@ {
        Some(MenuAction::AnnotateFile)
    } else if id == "settings"@ {
        Some(MenuAction::Settings)
    } else if id == "exit"@ {
        Some(MenuAction::Exit)
    } else {
        None
    }
}

/// Maps a clicked menu item's id to its action; history entries are
/// `history_N`.
pub fn menu_action(id: &str) -> (a: MenuAction)
    ensures
        a == match fixed_menu_action(id@) {
            Some(f) => f,
            None => match (if id@.len() >= 8 && id@.take(8) == "history_"@ {
                spec_parse_usize(id@.skip(8))
            } else {
                None
            }) {
                Some(i) => MenuAction::History(i),
                None => MenuAction::Unknown,
            },
        },
{
    if str_eq(id, "capture_region") {
        MenuAction::CaptureRegion
    } else if str_eq(id, "capture_window") {
        MenuAction::CaptureWindow
    } else if str_eq(id, "capture_fullscreen") {
        MenuAction::CaptureFullscreen
    } else if str_eq(id, "record_screen") {
        MenuAction::RecordScreen
    } else if str_eq(id, "record_region") {
        MenuAction::RecordRegion
    } else if str_eq(id, "stop_recording") {
        MenuAction::StopRecording
    } else if str_eq(id, "ocr_region") {
        MenuAction::OcrRegion
    } else if str_eq(id, "upload_imgur") {
        MenuAction::Upload
    } else if str_eq(id, "annotate_file") {
        MenuAction::AnnotateFile
    } else if str_eq(id, "settings") {
        MenuAction::Settings
    } else if str_eq(id, "exit") {
        MenuAction::Exit
    } else {
        match history_index(id) {
            Some(i) => MenuAction::History(i),
            None => MenuAction::Unknown,
        }
    }
}

/// A capture item's label: its name and, in parentheses after two spaces,
/// the hotkey as the platform shows it.
pub fn capture_item_label(name: &str, hotkey: &str, macos: bool) -> (r: String)
    ensures
        r@ == name@ + "  ("@ + (if macos { hotkey_label_macos(hotkey@) } else { hotkey_label(hotkey@) })
            + ")"@,
{
    let shown = if macos {
        format_hotkey_display_macos(hotkey)
    } else {
        format_hotkey_display(hotkey)
    };
    let mut r = String::from_str(name);
    r.append("  (");
    r.append(shown.as_str());
    r.append(")");
    r
}

// -- Hotkey handlers --

/// What the fullscreen hotkey does.
#[derive(Debug, PartialEq, Eq)]
pub enum FullscreenAction {
    /// Open the overlay to pick a monitor.
    SelectScreen,
    /// Capture right away.
    CaptureNow,
}

/// The fullscreen hotkey picks a monitor in `select` mode and captures at
/// once otherwise.
pub fn fullscreen_hotkey_action(fullscreen_mode: &str) -> (a: FullscreenAction)
    ensures
        (a is SelectScreen) == (fullscreen_mode@ == "select"@),
{
    if str_eq(fullscreen_mode, "select") {
        FullscreenAction::SelectScreen
    } else {
        FullscreenAction::CaptureNow
    }
}

/// What a fullscreen capture covers.
#[derive(Debug, PartialEq, Eq)]
pub enum FullscreenTarget {
    /// The monitor under the cursor.
    CurrentMonitor,
    /// The whole virtual desktop.
    AllMonitors,
}

/// A fullscreen capture covers the monitor under the cursor in `current`
/// mode and every monitor otherwise.
pub fn fullscreen_target(fullscreen_mode: &str) -> (t: FullscreenTarget)
    ensures
        (t is CurrentMonitor) == (fullscreen_mode@ == "current"@),
{
    if str_eq(fullscreen_mode, "current") {
        FullscreenTarget::CurrentMonitor
    } else {
        FullscreenTarget::AllMonitors
    }
}

/// What the record hotkey does.
#[derive(Debug, PartialEq, Eq)]
pub enum RecordAction {
    /// Stop the running recording.
    Stop,
    /// Open the overlay to select a region to record.
    SelectRegion,
}

/// The record hotkey stops a running recording, else starts a selection.
pub fn record_hotkey_action(is_recording: bool) -> (a: RecordAction)
    ensures
        (a is Stop) == is_recording,
{
    if is_recording {
        RecordAction::Stop
    } else {
        RecordAction::SelectRegion
    }
}

/// Whether saving `new` must re-register the global hotkeys.
pub fn hotkeys_changed(old: &AppConfig, new: &AppConfig) -> (r: bool)
    ensures
        r == (old.hotkey_region@ != new.hotkey_region@ || old.hotkey_fullscreen@
            != new.hotkey_fullscreen@ || old.hotkey_window@ != new.hotkey_window@
            || old.hotkey_ocr@ != new.hotkey_ocr@ || old.hotkey_record@ != new.hotkey_record@),
{
    !str_eq(old.hotkey_region.as_str(), new.hotkey_region.as_str()) || !str_eq(
        old.hotkey_fullscreen.as_str(),
        new.hotkey_fullscreen.as_str(),
    ) || !str_eq(old.hotkey_window.as_str(), new.hotkey_window.as_str()) || !str_eq(
        old.hotkey_ocr.as_str(),
        new.hotkey_ocr.as_str(),
    ) || !str_eq(old.hotkey_record.as_str(), new.hotkey_record.as_str())
}

} // verus!
