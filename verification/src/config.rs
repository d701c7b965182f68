//! User settings: the configuration record, its defaults, its validation
//! before it is persisted, and the filename and hotkey text derived from it.

use vstd::prelude::*;
use crate::error::AppError;
use crate::text::{decimal, replace_all, spec_replace, str_chars, str_eq, string_of_chars};

verus! {

/// The persisted application settings.
#[derive(Debug, PartialEq, Eq)]
pub struct AppConfig {
    pub save_folder: String,
    pub hotkey_region: String,
    pub hotkey_fullscreen: String,
    pub hotkey_window: String,
    pub format: String,
    pub filename_prefix: String,
    pub save_to_disk: bool,
    pub capture_mode: String,
    pub annotate_captures: bool,
    pub annotate_shift_tool: String,
    pub annotate_ctrl_tool: String,
    pub annotate_alt_tool: String,
    pub annotate_default_tool: String,
    pub filename_suffix: String,
    pub launch_on_startup: bool,
    /// Seconds of countdown before a capture: 0, 3, 5 or 10.
    pub capture_delay: u32,
    /// After a capture: `image` copies it, `url` uploads it and copies the
    /// link, anything else does neither.
    pub clipboard_action: String,
    /// `current`, `all` or `select` monitors for a fullscreen capture.
    pub fullscreen_mode: String,
    pub hotkey_ocr: String,
    pub hotkey_record: String,
    /// `mp4` or `gif`.
    pub recording_format: String,
    /// 10, 15, 24 or 30 frames per second.
    pub recording_fps: u32,
    /// GIF recordings are scaled to at most this width (100 to 3840).
    pub gif_max_width: u32,
    /// GIF recordings stop after this many seconds (at most 120; 0: no limit).
    pub gif_max_duration: u32,
    /// The Explorer "Annotate with QuickShotter" entry is registered.
    pub explorer_context_menu: bool,
    pub annotate_right_default_tool: String,
    pub annotate_right_shift_tool: String,
    pub annotate_right_ctrl_tool: String,
    pub annotate_right_alt_tool: String,
}

impl Clone for AppConfig {
    fn clone(&self) -> (r: Self)
        ensures
            r == *self,
    {
        AppConfig {
            save_folder: self.save_folder.clone(),
            hotkey_region: self.hotkey_region.clone(),
            hotkey_fullscreen: self.hotkey_fullscreen.clone(),
            hotkey_window: self.hotkey_window.clone(),
            format: self.format.clone(),
            filename_prefix: self.filename_prefix.clone(),
            save_to_disk: self.save_to_disk,
            capture_mode: self.capture_mode.clone(),
            annotate_captures: self.annotate_captures,
            annotate_shift_tool: self.annotate_shift_tool.clone(),
            annotate_ctrl_tool: self.annotate_ctrl_tool.clone(),
            annotate_alt_tool: self.annotate_alt_tool.clone(),
            annotate_default_tool: self.annotate_default_tool.clone(),
            filename_suffix: self.filename_suffix.clone(),
            launch_on_startup: self.launch_on_startup,
            capture_delay: self.capture_delay,
            clipboard_action: self.clipboard_action.clone(),
            fullscreen_mode: self.fullscreen_mode.clone(),
            hotkey_ocr: self.hotkey_ocr.clone(),
            hotkey_record: self.hotkey_record.clone(),
            recording_format: self.recording_format.clone(),
            recording_fps: self.recording_fps,
            gif_max_width: self.gif_max_width,
            gif_max_duration: self.gif_max_duration,
            explorer_context_menu: self.explorer_context_menu,
            annotate_right_default_tool: self.annotate_right_default_tool.clone(),
            annotate_right_shift_tool: self.annotate_right_shift_tool.clone(),
            annotate_right_ctrl_tool: self.annotate_right_ctrl_tool.clone(),
            annotate_right_alt_tool: self.annotate_right_alt_tool.clone(),
        }
    }
}

// -- Defaults --

pub fn default_annotate_default_tool() -> (s: String)
    ensures
        s@ == "freehand"@,
{
    String::from_str("freehand")
}

pub fn default_filename_suffix() -> (s: String)
    ensures
        s@ == "%Y-%m-%d_%H-%M-%S"@,
{
    String::from_str("%Y-%m-%d_%H-%M-%S")
}

pub fn default_capture_mode() -> (s: String)
    ensures
        s@ == "instant"@,
{
    String::from_str("instant")
}

pub fn default_hotkey_window() -> (s: String)
    ensures
        s@ == "CmdOrCtrl+Alt+Shift+W"@,
{
    String::from_str("CmdOrCtrl+Alt+Shift+W")
}

pub fn default_shift_tool() -> (s: String)
    ensures
        s@ == "arrow"@,
{
    String::from_str("arrow")
}

pub fn default_ctrl_tool() -> (s: String)
    ensures
        s@ == "oval"@,
{
    String::from_str("oval")
}

pub fn default_alt_tool() -> (s: String)
    ensures
        s@ == "text"@,
{
    String::from_str("text")
}

/// Every setting but the save folder holds its factory default.
pub open spec fn has_factory_defaults(c: AppConfig) -> bool {
    &&& c.hotkey_region@ == "Alt+Backquote"@
    &&& c.hotkey_fullscreen@ == "CmdOrCtrl+Alt+Shift+D"@
    &&& c.hotkey_window@ == "CmdOrCtrl+Alt+Shift+W"@
    &&& c.format@ == "png"@
    &&& c.filename_prefix@ == "screenshot"@
    &&& c.save_to_disk
    &&& c.capture_mode@ == "instant"@
    &&& !c.annotate_captures
    &&& c.annotate_shift_tool@ == "arrow"@
    &&& c.annotate_ctrl_tool@ == "oval"@
    &&& c.annotate_alt_tool@ == "text"@
    &&& c.annotate_default_tool@ == "freehand"@
    &&& c.filename_suffix@ == "%Y-%m-%d_%H-%M-%S"@
    &&& !c.launch_on_startup
    &&& c.capture_delay == 0
    &&& c.clipboard_action@ == "image"@
    &&& c.fullscreen_mode@ == "current"@
    &&& c.hotkey_ocr@ == "CmdOrCtrl+Alt+Shift+T"@
    &&& c.hotkey_record@ == "CmdOrCtrl+Alt+Shift+R"@
    &&& c.recording_format@ == "mp4"@
    &&& c.recording_fps == 30
    &&& c.gif_max_width == 800
    &&& c.gif_max_duration == 30
    &&& !c.explorer_context_menu
    &&& c.annotate_right_default_tool@ == "freehand"@
    &&& c.annotate_right_shift_tool@ == "arrow"@
    &&& c.annotate_right_ctrl_tool@ == "oval"@
    &&& c.annotate_right_alt_tool@ == "text"@
}

impl AppConfig {
    /// The factory settings, saving into `save_folder`.
    pub fn with_save_folder(save_folder: String) -> (c: AppConfig)
        ensures
            has_factory_defaults(c),
            c.save_folder == save_folder,
    {
        AppConfig {
            save_folder,
            hotkey_region: String::from_str("Alt+Backquote"),
            hotkey_fullscreen: String::from_str("CmdOrCtrl+Alt+Shift+D"),
            hotkey_window: default_hotkey_window(),
            format: String::from_str("png"),
            filename_prefix: String::from_str("screenshot"),
            save_to_disk: true,
            capture_mode: String::from_str("instant"),
            annotate_captures: false,
            annotate_shift_tool: default_shift_tool(),
            annotate_ctrl_tool: default_ctrl_tool(),
            annotate_alt_tool: default_alt_tool(),
            annotate_default_tool: default_annotate_default_tool(),
            filename_suffix: default_filename_suffix(),
            launch_on_startup: false,
            capture_delay: 0,
            clipboard_action: String::from_str("image"),
            fullscreen_mode: String::from_str("current"),
            hotkey_ocr: String::from_str("CmdOrCtrl+Alt+Shift+T"),
            hotkey_record: String::from_str("CmdOrCtrl+Alt+Shift+R"),
            recording_format: String::from_str("mp4"),
            recording_fps: 30,
            gif_max_width: 800,
            gif_max_duration: 30,
            explorer_context_menu: false,
            annotate_right_default_tool: default_annotate_default_tool(),
            annotate_right_shift_tool: default_shift_tool(),
            annotate_right_ctrl_tool: default_ctrl_tool(),
            annotate_right_alt_tool: default_alt_tool(),
        }
    }
}

impl Default for AppConfig {
    /// The factory settings, saving into the platform's screenshots folder.
    fn default() -> (c: Self)
        ensures
            has_factory_defaults(c),
    {
        AppConfig::with_save_folder(default_save_folder())
    }
}

/// The user's pictures folder (`dirs::picture_dir`), as text.
#[verifier::external_body]
fn picture_dir() -> Option<String> {
    dirs::picture_dir().map(|p| p.to_string_lossy().to_string())
}

/// The user's home folder (`dirs::home_dir`), as text.
#[verifier::external_body]
fn home_dir() -> Option<String> {
    dirs::home_dir().map(|p| p.to_string_lossy().to_string())
}

/// A single path component made of ASCII letters only: never absolute,
/// never a drive prefix, never `.` or `..`, on any platform.
pub open spec fn is_plain_name(s: Seq<char>) -> bool {
    s.len() > 0 && forall|i: int| 0 <= i < s.len() ==> {
        let c = #[trigger] s[i];
        ('a' <= c && c <= 'z') || ('A' <= c && c <= 'Z')
    }
}

/// The path begins with the Windows verbatim prefix `\\?\`, under which
/// `join` also removes `.` and `..` components.
pub open spec fn is_verbatim(b: Seq<char>) -> bool {
    b.len() >= 4 && b[0] == '\\' && b[1] == '\\' && b[2] == '?' && b[3] == '\\'
}

/// The path is, or could grow into, a verbatim path: it begins with the
/// verbatim prefix or is itself a beginning of it.
pub open spec fn may_be_verbatim(b: Seq<char>) -> bool {
    ||| is_verbatim(b)
    ||| b.len() == 0
    ||| b.len() == 1 && b[0] == '\\'
    ||| b.len() == 2 && b[0] == '\\' && b[1] == '\\'
    ||| b.len() == 3 && b[0] == '\\' && b[1] == '\\' && b[2] == '?'
}

/// `r` is `base` extended by the component `part`: directly, or after one
/// separator (`/` or, on Windows, `\`).
pub open spec fn joined(base: Seq<char>, part: Seq<char>, r: Seq<char>) -> bool {
    ||| r == base + part
    ||| r == base + seq!['/'] + part
    ||| r == base + seq!['\\'] + part
}

/// `base` with one more path component (`Path::join`), as text. `join`
/// extends the path with `part`: for a plain name and a base without the
/// verbatim prefix the result is the base, at most one separator (which one
/// differs by platform), then the name; a plain name always ends it.
#[verifier::external_body]
fn join_path(base: &str, part: &str) -> (r: String)
    ensures
        is_plain_name(part@) ==> part@.is_suffix_of(r@),
        is_plain_name(part@) && !is_verbatim(base@) ==> joined(base@, part@, r@),
{
    std::path::Path::new(base).join(part).to_string_lossy().to_string()
}

/// The default save folder for the given pictures and home folders:
/// `Screenshots` under the pictures folder, else `Pictures/Screenshots`
/// under the home folder, else the literal `~/Pictures/Screenshots`.
pub open spec fn save_folder_rel(pic: Option<Seq<char>>, home: Option<Seq<char>>, r: Seq<char>) -> bool {
    match pic {
        Some(p) => "Screenshots"@.is_suffix_of(r) && (!is_verbatim(p) ==> joined(
            p,
            "Screenshots"@,
            r,
        )),
        None => match home {
            Some(h) => "Screenshots"@.is_suffix_of(r) && (!may_be_verbatim(h) ==> exists|
                mid: Seq<char>,
            |
                #![trigger joined(h, "Pictures"@, mid)]
                joined(h, "Pictures"@, mid) && joined(mid, "Screenshots"@, r)),
            None => r == "~/Pictures/Screenshots"@,
        },
    }
}

pub open spec fn opt_view(o: Option<String>) -> Option<Seq<char>> {
    match o {
        Some(s) => Some(s@),
        None => None,
    }
}

/// The default save folder given the looked-up pictures folder `pic` and
/// home folder `home` (the home folder is only used without a pictures
/// folder).
pub fn save_folder_from(pic: Option<String>, home: Option<String>) -> (r: String)
    ensures
        save_folder_rel(opt_view(pic), opt_view(home), r@),
{
    proof {
        reveal_strlit("Screenshots");
        reveal_strlit("Pictures");
        reveal_strlit("~/Pictures/Screenshots");
        assert(is_plain_name("Screenshots"@));
        assert(is_plain_name("Pictures"@));
    }
    match pic {
        Some(p) => join_path(p.as_str(), "Screenshots"),
        None => match home {
            Some(h) => {
                let pictures = join_path(h.as_str(), "Pictures");
                proof {
                    if !may_be_verbatim(h@) {
                        let m = pictures@;
                        assert(m.len() >= 4);
                        if h@.len() >= 4 {
                            assert(m[0] == h@[0] && m[1] == h@[1] && m[2] == h@[2] && m[3] == h@[3]);
                        } else {
                            assert(forall|k: int| 0 <= k < h@.len() ==> m[k] == h@[k]);
                            if h@.len() == 1 {
                                assert(m[1] == '/' || m[1] == '\\' || m[1] == 'P');
                            } else if h@.len() == 2 {
                                assert(m[2] == '/' || m[2] == '\\' || m[2] == 'P');
                            } else {
                                assert(m[3] == '/' || m[3] == '\\' || m[3] == 'P');
                            }
                        }
                        assert(!is_verbatim(m));
                    }
                }
                let r = join_path(pictures.as_str(), "Screenshots");
                proof {
                    if !may_be_verbatim(h@) {
                        assert(joined(h@, "Pictures"@, pictures@));
                    }
                }
                r
            },
            None => String::from_str("~/Pictures/Screenshots"),
        },
    }
}

/// Where screenshots are saved by default: `Screenshots` under the pictures
/// folder, else `Pictures/Screenshots` under the home folder, else the
/// literal `~/Pictures/Screenshots`. The folders are looked up in the
/// environment, so the contract states what holds whatever the lookups
/// gave; `save_folder_from` states the result for given folders.
pub fn default_save_folder() -> (s: String)
    ensures
        "Screenshots"@.is_suffix_of(s@),
        exists|pic: Option<Seq<char>>, home: Option<Seq<char>>| save_folder_rel(pic, home, s@),
{
    let r = match picture_dir() {
        Some(p) => save_folder_from(Some(p), None),
        None => save_folder_from(None, home_dir()),
    };
    proof {
        reveal_strlit("Screenshots");
        reveal_strlit("~/Pictures/Screenshots");
        assert("Screenshots"@ =~= "~/Pictures/Screenshots"@.subrange(
            "~/Pictures/Screenshots"@.len() - "Screenshots"@.len(),
            "~/Pictures/Screenshots"@.len() as int,
        ));
    }
    r
}

// -- Filenames --

/// The characters that may not stand in a filename part.
pub open spec fn is_reserved_char(c: char) -> bool {
    c == '/' || c == '\\' || c == ':' || c == '<' || c == '>' || c == '|' || c == '"' || c == '?'
        || c == '*' || c == '\0'
}

/// Each reserved character replaced by `_`.
pub open spec fn replace_reserved(s: Seq<char>) -> Seq<char> {
    s.map_values(|c: char| if is_reserved_char(c) { '_' } else { c })
}

/// Every `..` (left to right, not overlapping) replaced by `_`.
pub open spec fn replace_dots(s: Seq<char>) -> Seq<char> {
    spec_replace(s, seq!['.', '.'], seq!['_'])
}

/// A filename part with reserved characters and then every `..` replaced
/// by `_`.
pub open spec fn spec_sanitize(s: Seq<char>) -> Seq<char> {
    replace_dots(replace_reserved(s))
}

/// `s` holds `..` somewhere.
pub open spec fn has_double_dot(s: Seq<char>) -> bool {
    exists|i: int| 0 <= i < s.len() - 1 && s[i] == '.' && #[trigger] s[i + 1] == '.'
}

/// Strip path-significant and Windows-reserved characters from filename parts.
pub fn sanitize_filename_part(s: &str) -> (r: String)
    ensures
        r@ == spec_sanitize(s@),
{
    let cs = str_chars(s);
    let mut mapped: Vec<char> = Vec::new();
    let mut i: usize = 0;
    while i < cs.len()
        invariant
            cs@ == s@,
            i <= cs@.len(),
            mapped@ == replace_reserved(s@).take(i as int),
        decreases cs@.len() - i,
    {
        let c = cs[i];
        let m = if c == '/' || c == '\\' || c == ':' || c == '<' || c == '>' || c == '|' || c
            == '"' || c == '?' || c == '*' || c == '\0' {
            '_'
        } else {
            c
        };
        mapped.push(m);
        i += 1;
        assert(mapped@ =~= replace_reserved(s@).take(i as int));
    }
    assert(mapped@ =~= replace_reserved(s@));
    let m = string_of_chars(mapped.as_slice());
    proof {
        reveal_strlit("..");
        reveal_strlit("_");
    }
    let r = replace_all(m.as_str(), "..", "_");
    assert(".."@ =~= seq!['.', '.']);
    assert("_"@ =~= seq!['_']);
    r
}

proof fn lemma_replace_reserved_clean(s: Seq<char>)
    ensures
        forall|i: int| 0 <= i < s.len() ==> !is_reserved_char(#[trigger] replace_reserved(s)[i]),
{
}

/// After `..` is replaced by `_`, no character of the result is one that
/// was absent from the input, other than `_`.
proof fn lemma_replace_dots_chars(s: Seq<char>)
    ensures
        forall|i: int|
            0 <= i < replace_dots(s).len() ==> {
                let c = #[trigger] replace_dots(s)[i];
                c == '_' || s.contains(c)
            },
    decreases s.len(),
{
    let pat = seq!['.', '.'];
    let rep = seq!['_'];
    let r = spec_replace(s, pat, rep);
    if s.len() < pat.len() {
    } else if s.take(2) == pat {
        lemma_replace_dots_chars(s.skip(2));
        assert forall|i: int| 0 <= i < r.len() implies {
            let c = #[trigger] r[i];
            c == '_' || s.contains(c)
        } by {
            if i >= 1 {
                let c = replace_dots(s.skip(2))[i - 1];
                assert(r[i] == c);
                if c != '_' {
                    assert(s.skip(2).contains(c));
                    let k = choose|k: int| 0 <= k < s.skip(2).len() && s.skip(2)[k] == c;
                    assert(s[k + 2] == c);
                }
            }
        }
    } else {
        lemma_replace_dots_chars(s.skip(1));
        assert forall|i: int| 0 <= i < r.len() implies {
            let c = #[trigger] r[i];
            c == '_' || s.contains(c)
        } by {
            if i == 0 {
                assert(s[0] == r[0]);
            } else {
                let c = replace_dots(s.skip(1))[i - 1];
                assert(r[i] == c);
                if c != '_' {
                    assert(s.skip(1).contains(c));
                    let k = choose|k: int| 0 <= k < s.skip(1).len() && s.skip(1)[k] == c;
                    assert(s[k + 1] == c);
                }
            }
        }
    }
}

/// Replacing `..` by `_` leaves no `..` behind, and the first character of
/// the result is a dot only where the input began with a dot.
proof fn lemma_replace_dots_clean(s: Seq<char>)
    ensures
        !has_double_dot(replace_dots(s)),
        replace_dots(s).len() > 0 ==> (replace_dots(s)[0] == '.' ==> s.len() > 0 && s[0] == '.'
            && (s.len() == 1 || s[1] != '.')),
    decreases s.len(),
{
    let pat = seq!['.', '.'];
    let rep = seq!['_'];
    let r = spec_replace(s, pat, rep);
    if s.len() < pat.len() {
        assert(r == s);
        if has_double_dot(r) {
            let i = choose|i: int| 0 <= i < r.len() - 1 && r[i] == '.' && #[trigger] r[i + 1] == '.';
        }
    } else if s.take(2) == pat {
        let t = s.skip(2);
        lemma_replace_dots_clean(t);
        let rt = replace_dots(t);
        assert(r == rep + rt);
        assert(r[0] == '_');
        if has_double_dot(r) {
            let i = choose|i: int| 0 <= i < r.len() - 1 && r[i] == '.' && #[trigger] r[i + 1] == '.';
            if i == 0 {
                assert(r[0] == '_');
            } else {
                assert(rt[i - 1] == '.' && rt[(i - 1) + 1] == '.');
            }
        }
    } else {
        let t = s.skip(1);
        lemma_replace_dots_clean(t);
        let rt = replace_dots(t);
        assert(r == seq![s[0]] + rt);
        assert(r[0] == s[0]);
        if s[0] == '.' && s[1] == '.' {
            assert(s.take(2) =~= pat);
        }
        if has_double_dot(r) {
            let i = choose|i: int| 0 <= i < r.len() - 1 && r[i] == '.' && #[trigger] r[i + 1] == '.';
            if i == 0 {
                assert(s[0] == '.');
                assert(rt[0] == '.');
                assert(t.len() > 0 && t[0] == '.');
                assert(s[1] == '.');
                assert(s.take(2) =~= pat);
            } else {
                assert(rt[i - 1] == '.' && rt[(i - 1) + 1] == '.');
            }
        }
    }
}

/// A sanitized filename part holds none of the reserved characters
/// `/ \ : < > | " ? *` and NUL, and no `..`.
pub proof fn law_sanitized_part_is_safe(s: Seq<char>)
    ensures
        forall|i: int|
            0 <= i < spec_sanitize(s).len() ==> !is_reserved_char(#[trigger] spec_sanitize(s)[i]),
        !has_double_dot(spec_sanitize(s)),
{
    let m = replace_reserved(s);
    lemma_replace_reserved_clean(s);
    lemma_replace_dots_chars(m);
    lemma_replace_dots_clean(m);
    assert forall|i: int| 0 <= i < spec_sanitize(s).len() implies !is_reserved_char(
        #[trigger] spec_sanitize(s)[i],
    ) by {
        let c = spec_sanitize(s)[i];
        if c != '_' {
            let k = choose|k: int| 0 <= k < m.len() && m[k] == c;
        }
    }
}

// -- Date format of the filename suffix --

/// Whether chrono's strftime parser reports an error item for the format
/// string.
pub uninterp spec fn strftime_has_error(fmt: Seq<char>) -> bool;

/// `chrono::format::strftime::StrftimeItems::new(fmt)`, walked to its end:
/// true when any item it yields is `Item::Error`. The result depends on the
/// format string alone and is named by `strftime_has_error`.
#[verifier::external_body]
fn strftime_items_have_error(fmt: &str) -> (r: bool)
    ensures
        r == strftime_has_error(fmt@),
{
    chrono::format::strftime::StrftimeItems::new(fmt).any(
        |item| matches!(item, chrono::format::Item::Error),
    )
}

/// The date format used when the configured one does not parse.
pub open spec fn fallback_date_format() -> Seq<char> {
    "%Y-%m-%d_%H-%M-%S"@
}

/// The format for the timestamp in a filename: the (sanitized) configured
/// suffix, or the fallback where the parser rejected it.
pub fn choose_timestamp_format(safe_suffix: &str, suffix_has_error: bool) -> (r: String)
    ensures
        r@ == (if suffix_has_error { fallback_date_format() } else { safe_suffix@ }),
{
    if suffix_has_error {
        String::from_str("%Y-%m-%d_%H-%M-%S")
    } else {
        String::from_str(safe_suffix)
    }
}

/// The format for the timestamp in a filename, after asking chrono whether
/// the configured suffix parses.
pub fn timestamp_format(safe_suffix: &str) -> (r: String)
    ensures
        r@ == (if strftime_has_error(safe_suffix@) {
            fallback_date_format()
        } else {
            safe_suffix@
        }),
{
    let bad = strftime_items_have_error(safe_suffix);
    choose_timestamp_format(safe_suffix, bad)
}

/// The stem of a capture's filename: prefix, underscore, timestamp.
pub fn capture_base_name(safe_prefix: &str, timestamp: &str) -> (r: String)
    ensures
        r@ == safe_prefix@ + "_"@ + timestamp@,
{
    let mut r = String::from_str(safe_prefix);
    r.append("_");
    r.append(timestamp);
    r
}

/// A character that separates path components (on Unix `/`, on Windows
/// also a backslash).
pub open spec fn is_path_separator(c: char) -> bool {
    c == '/' || c == '\\'
}

/// A component that names no file: empty (from a doubled or trailing
/// separator) or `.`.
pub open spec fn is_skipped_component(c: Seq<char>) -> bool {
    c.len() == 0 || c == seq!['.']
}

/// Scanning the first `k` characters of a path: the last complete component
/// that names something, and the component being read.
pub open spec fn path_scan(s: Seq<char>, k: nat) -> (Option<Seq<char>>, Seq<char>)
    decreases k,
{
    if k == 0 {
        (None, Seq::empty())
    } else {
        let prev = path_scan(s, (k - 1) as nat);
        let c = s[k - 1];
        if is_path_separator(c) {
            (if is_skipped_component(prev.1) { prev.0 } else { Some(prev.1) }, Seq::empty())
        } else {
            (prev.0, prev.1.push(c))
        }
    }
}

/// The final component of a path, as `Path::file_name` gives it: empty and
/// `.` components are passed over, and there is none when the path ends in
/// `..` or has no component.
pub open spec fn spec_file_name(s: Seq<char>) -> Option<Seq<char>> {
    let scan = path_scan(s, s.len());
    let fin = if is_skipped_component(scan.1) { scan.0 } else { Some(scan.1) };
    match fin {
        Some(c) => if c == seq!['.', '.'] { None } else { Some(c) },
        None => None,
    }
}

pub open spec fn has_no_separator(s: Seq<char>) -> bool {
    forall|i: int| 0 <= i < s.len() ==> !is_path_separator(#[trigger] s[i])
}

proof fn lemma_scan_parts_have_no_separator(s: Seq<char>, k: nat)
    requires
        k <= s.len(),
    ensures
        has_no_separator(path_scan(s, k).1),
        path_scan(s, k).0 matches Some(c) ==> has_no_separator(c),
    decreases k,
{
    if k > 0 {
        lemma_scan_parts_have_no_separator(s, (k - 1) as nat);
        let prev = path_scan(s, (k - 1) as nat);
        if !is_path_separator(s[k - 1]) {
            assert forall|i: int| 0 <= i < prev.1.push(s[k - 1]).len() implies !is_path_separator(
                #[trigger] prev.1.push(s[k - 1])[i],
            ) by {
                if i < prev.1.len() {
                    assert(prev.1.push(s[k - 1])[i] == prev.1[i]);
                }
            }
        }
    }
}

/// The stem of a capture's filename with no directory in it: the last
/// component of `prefix_timestamp` (a date format such as `%D` writes
/// slashes), or `screenshot_` and the fallback timestamp when that names no
/// file.
pub fn safe_base_name(safe_prefix: &str, timestamp: &str, fallback: &str) -> (r: String)
    ensures
        r@ == (match spec_file_name(safe_prefix@ + "_"@ + timestamp@) {
            Some(c) => c,
            None => "screenshot_"@ + fallback@,
        }),
        has_no_separator(fallback@) ==> has_no_separator(r@),
{
    let base = capture_base_name(safe_prefix, timestamp);
    let cs = str_chars(base.as_str());
    let ghost b = cs@;
    let mut last: Option<Vec<char>> = None;
    let mut cur: Vec<char> = Vec::new();
    let mut k: usize = 0;
    while k < cs.len()
        invariant
            b == cs@,
            k <= b.len(),
            path_scan(b, k as nat).1 == cur@,
            path_scan(b, k as nat).0 == (match last {
                Some(v) => Some(v@),
                None => None::<Seq<char>>,
            }),
        decreases b.len() - k,
    {
        let c = cs[k];
        if c == '/' || c == '\\' {
            let skip = cur.len() == 0 || (cur.len() == 1 && cur[0] == '.');
            assert(skip == is_skipped_component(cur@)) by {
                if cur.len() == 1 && cur[0] == '.' {
                    assert(cur@ =~= seq!['.']);
                }
            }
            if !skip {
                last = Some(cur);
            }
            cur = Vec::new();
        } else {
            cur.push(c);
        }
        k += 1;
    }
    proof {
        lemma_scan_parts_have_no_separator(b, b.len());
        reveal_strlit("screenshot_");
        assert(b.len() == k);
    }
    let skip = cur.len() == 0 || (cur.len() == 1 && cur[0] == '.');
    assert(skip == is_skipped_component(cur@)) by {
        if cur.len() == 1 && cur[0] == '.' {
            assert(cur@ =~= seq!['.']);
        }
    }
    let fin: Option<Vec<char>> = if skip { last } else { Some(cur) };
    match fin {
        Some(v) => {
            let parent = v.len() == 2 && v[0] == '.' && v[1] == '.';
            assert(parent == (v@ == seq!['.', '.'])) by {
                if v.len() == 2 && v[0] == '.' && v[1] == '.' {
                    assert(v@ =~= seq!['.', '.']);
                }
            }
            if !parent {
                return string_of_chars(v.as_slice());
            }
        },
        None => {},
    }
    let mut r = String::from_str("screenshot_");
    r.append(fallback);
    proof {
        assert forall|i: int| has_no_separator(fallback@) && 0 <= i < r@.len() implies !is_path_separator(
            #[trigger] r@[i],
        ) by {
            if i >= 11 {
                assert(r@[i] == fallback@[i - 11]);
            }
        }
    }
    r
}

/// `base.ext`, the first name tried for a capture.
pub fn plain_file_name(base: &str, ext: &str) -> (r: String)
    ensures
        r@ == base@ + "."@ + ext@,
{
    let mut r = String::from_str(base);
    r.append(".");
    r.append(ext);
    r
}

/// `base_N.ext`, the name tried when the plain one is taken.
pub fn numbered_file_name(base: &str, ext: &str, counter: u32) -> (r: String)
    ensures
        r@ == base@ + "_"@ + crate::text::decimal(counter as nat) + "."@ + ext@,
{
    let mut r = String::from_str(base);
    r.append("_");
    crate::text::push_decimal(&mut r, counter as u64);
    r.append(".");
    r.append(ext);
    r
}

/// Numbered names are tried from 2 up to this bound (exclusive).
pub const COLLISION_LIMIT: u32 = 10_000;

/// Whether another numbered name is tried: the last one was taken and the
/// counter has not reached the bound.
pub fn keep_searching(taken: bool, counter: u32) -> (r: bool)
    ensures
        r == (taken && counter < COLLISION_LIMIT),
{
    taken && counter < COLLISION_LIMIT
}

/// The name the collision search settles on, numbering the plain name 1
/// and `base_N` N: from `current`, the search moves on to the next number
/// while the current name is taken and `keep_searching` allows it.
pub open spec fn probe_from(taken: spec_fn(u32) -> bool, current: u32) -> u32
    decreases COLLISION_LIMIT - current,
{
    if taken(current) && current + 1 < COLLISION_LIMIT {
        probe_from(taken, (current + 1) as u32)
    } else {
        current
    }
}

/// The collision search picks the least free name: every name before the
/// one chosen is taken, and the chosen one is free unless all names up to
/// the last number tried are taken.
pub proof fn law_probe_picks_least_free(taken: spec_fn(u32) -> bool, current: u32)
    requires
        1 <= current < COLLISION_LIMIT,
    ensures
        current <= probe_from(taken, current) < COLLISION_LIMIT,
        forall|k: u32| current <= k < probe_from(taken, current) ==> #[trigger] taken(k),
        !taken(probe_from(taken, current)) || probe_from(taken, current) == COLLISION_LIMIT - 1,
    decreases COLLISION_LIMIT - current,
{
    if taken(current) && current + 1 < COLLISION_LIMIT {
        law_probe_picks_least_free(taken, (current + 1) as u32);
    }
}

// -- Validation before a configuration is persisted --

pub open spec fn valid_format(f: Seq<char>) -> bool {
    f == "png"@ || f == "jpg"@ || f == "jpeg"@ || f == "webp"@
}

pub open spec fn valid_capture_mode(m: Seq<char>) -> bool {
    m == "live"@ || m == "freeze"@ || m == "instant"@
}

/// The settings check accepts every image format the capture encoder
/// knows by name: the factory configuration with its format set to `png`,
/// `jpg`, `jpeg` or `webp` and a valid date suffix passes, and any other
/// format is refused with the image-format message.
pub proof fn law_encoder_formats_pass_validation(c0: AppConfig, format: String, suffix_has_error: bool)
    requires
        has_factory_defaults(c0),
    ensures
        ({
            let c = AppConfig { format: format, ..c0 };
            &&& (format@ == "png"@ || format@ == "jpg"@ || format@ == "jpeg"@ || format@ == "webp"@)
                && !suffix_has_error ==> config_problem(c, suffix_has_error) is None
            &&& !(format@ == "png"@ || format@ == "jpg"@ || format@ == "jpeg"@ || format@ == "webp"@)
                ==> config_problem(c, suffix_has_error) == Some("Invalid image format: "@ + format@)
        }),
{
    reveal_strlit("instant");
    reveal_strlit("live");
    reveal_strlit("freeze");
    reveal_strlit("mp4");
    reveal_strlit("gif");
    assert(valid_capture_mode(c0.capture_mode@));
    assert(valid_recording_format(c0.recording_format@));
}

pub open spec fn valid_capture_delay(d: u32) -> bool {
    d == 0 || d == 3 || d == 5 || d == 10
}

pub open spec fn valid_recording_format(f: Seq<char>) -> bool {
    f == "mp4"@ || f == "gif"@
}

pub open spec fn valid_recording_fps(fps: u32) -> bool {
    fps == 10 || fps == 15 || fps == 24 || fps == 30
}

/// The message of the first check a configuration fails, given whether its
/// filename suffix failed to parse as a date format; `None` when it passes.
pub open spec fn config_problem(c: AppConfig, suffix_has_error: bool) -> Option<Seq<char>> {
    if !valid_format(c.format@) {
        Some("Invalid image format: "@ + c.format@)
    } else if !valid_capture_delay(c.capture_delay) {
        Some("Invalid capture delay: "@ + decimal(c.capture_delay as nat))
    } else if !valid_capture_mode(c.capture_mode@) {
        Some("Invalid capture mode: "@ + c.capture_mode@)
    } else if !valid_recording_format(c.recording_format@) {
        Some("Invalid recording format: "@ + c.recording_format@)
    } else if !valid_recording_fps(c.recording_fps) {
        Some("Invalid recording FPS: "@ + decimal(c.recording_fps as nat))
    } else if c.gif_max_width < 100 || c.gif_max_width > 3840 {
        Some("GIF max width must be 100-3840, got "@ + decimal(c.gif_max_width as nat))
    } else if c.gif_max_duration > 120 {
        Some("GIF max duration must be 0-120s, got "@ + decimal(c.gif_max_duration as nat))
    } else if suffix_has_error {
        Some("Invalid date format in filename suffix"@)
    } else {
        None
    }
}

fn str_in(s: &str, options: &[&str]) -> (r: bool)
    ensures
        r == exists|i: int| 0 <= i < options@.len() && options@[i]@ == s@,
{
    let mut i: usize = 0;
    while i < options.len()
        invariant
            i <= options@.len(),
            forall|k: int| 0 <= k < i ==> options@[k]@ != s@,
        decreases options@.len() - i,
    {
        if str_eq(options[i], s) {
            return true;
        }
        i += 1;
    }
    false
}

/// Checks a configuration, given whether its filename suffix failed to parse
/// as a date format. Errors are `AppError::Config` with the message of the
/// first failed check.
pub fn check_config(c: &AppConfig, suffix_has_error: bool) -> (r: Result<(), AppError>)
    ensures
        match r {
            Ok(()) => config_problem(*c, suffix_has_error) is None,
            Err(e) => e is Config && config_problem(*c, suffix_has_error) == Some(e.message()),
        },
{
    let formats: [&str; 4] = ["png", "jpg", "jpeg", "webp"];
    proof {
        reveal_strlit("png");
        reveal_strlit("jpg");
        reveal_strlit("jpeg");
        reveal_strlit("webp");
    }
    if !str_in(c.format.as_str(), &formats) {
        assert(!valid_format(c.format@)) by {
            if valid_format(c.format@) {
                if c.format@ == "png"@ { assert(formats@[0]@ == c.format@); }
                if c.format@ == "jpg"@ { assert(formats@[1]@ == c.format@); }
                if c.format@ == "jpeg"@ { assert(formats@[2]@ == c.format@); }
                if c.format@ == "webp"@ { assert(formats@[3]@ == c.format@); }
            }
        }
        let mut m = String::from_str("Invalid image format: ");
        m.append(c.format.as_str());
        return Err(AppError::Config(m));
    }
    let d = c.capture_delay;
    if !(d == 0 || d == 3 || d == 5 || d == 10) {
        let mut m = String::from_str("Invalid capture delay: ");
        crate::text::push_decimal(&mut m, d as u64);
        return Err(AppError::Config(m));
    }
    let modes: [&str; 3] = ["live", "freeze", "instant"];
    if !str_in(c.capture_mode.as_str(), &modes) {
        assert(!valid_capture_mode(c.capture_mode@)) by {
            if valid_capture_mode(c.capture_mode@) {
                if c.capture_mode@ == "live"@ { assert(modes@[0]@ == c.capture_mode@); }
                if c.capture_mode@ == "freeze"@ { assert(modes@[1]@ == c.capture_mode@); }
                if c.capture_mode@ == "instant"@ { assert(modes@[2]@ == c.capture_mode@); }
            }
        }
        let mut m = String::from_str("Invalid capture mode: ");
        m.append(c.capture_mode.as_str());
        return Err(AppError::Config(m));
    }
    let recording_formats: [&str; 2] = ["mp4", "gif"];
    proof {
        reveal_strlit("mp4");
        reveal_strlit("gif");
    }
    if !str_in(c.recording_format.as_str(), &recording_formats) {
        assert(!valid_recording_format(c.recording_format@)) by {
            if c.recording_format@ == "mp4"@ { assert(recording_formats@[0]@ == c.recording_format@); }
            if c.recording_format@ == "gif"@ { assert(recording_formats@[1]@ == c.recording_format@); }
        }
        let mut m = String::from_str("Invalid recording format: ");
        m.append(c.recording_format.as_str());
        return Err(AppError::Config(m));
    }
    let fps = c.recording_fps;
    if !(fps == 10 || fps == 15 || fps == 24 || fps == 30) {
        let mut m = String::from_str("Invalid recording FPS: ");
        crate::text::push_decimal(&mut m, fps as u64);
        return Err(AppError::Config(m));
    }
    if c.gif_max_width < 100 || c.gif_max_width > 3840 {
        let mut m = String::from_str("GIF max width must be 100-3840, got ");
        crate::text::push_decimal(&mut m, c.gif_max_width as u64);
        return Err(AppError::Config(m));
    }
    if c.gif_max_duration > 120 {
        let mut m = String::from_str("GIF max duration must be 0-120s, got ");
        crate::text::push_decimal(&mut m, c.gif_max_duration as u64);
        return Err(AppError::Config(m));
    }
    if suffix_has_error {
        return Err(AppError::Config(String::from_str("Invalid date format in filename suffix")));
    }
    Ok(())
}

/// Checks a configuration before it is persisted: image format, capture
/// delay, capture mode, recording format and frame rate, GIF width and
/// duration limits, and the filename suffix as a chrono date format.
pub fn validate_config(c: &AppConfig) -> (r: Result<(), AppError>)
    ensures
        match r {
            Ok(()) => config_problem(*c, strftime_has_error(c.filename_suffix@)) is None,
            Err(e) => e is Config && config_problem(*c, strftime_has_error(c.filename_suffix@))
                == Some(e.message()),
        },
{
    let bad = strftime_items_have_error(c.filename_suffix.as_str());
    check_config(c, bad)
}

} // verus!
