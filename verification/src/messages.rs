//! Texts shown to the user: the save-folder check in the settings window
//! and the desktop notifications after a capture or recording.

use vstd::prelude::*;

verus! {

/// What was found at the configured save folder.
#[derive(Debug, Clone, Copy, PartialEq, Eq)]
pub enum FolderProbe {
    /// The path exists; a test file could be written there when `writable`
    /// (only tried for directories).
    Existing { is_dir: bool, writable: bool },
    /// The path does not exist; `parent_is_dir` tells whether its parent is
    /// an existing directory (`None`: the path has no parent).
    Missing { parent_is_dir: Option<bool> },
}

/// The verdict on a save folder: `ok`, or what is wrong with it.
pub open spec fn spec_folder_status(p: FolderProbe) -> Seq<char> {
    match p {
        FolderProbe::Existing { is_dir, writable } => if !is_dir {
            "Path exists but is not a directory"@
        } else if writable {
            "ok"@
        } else {
            "Folder exists but is not writable"@
        },
        FolderProbe::Missing { parent_is_dir } => match parent_is_dir {
            Some(true) => "ok"@,
            Some(false) => "Parent directory does not exist"@,
            None => "Invalid path"@,
        },
    }
}

/// The settings window's check of a save folder.
pub fn validate_save_folder(p: FolderProbe) -> (r: String)
    ensures
        r@ == spec_folder_status(p),
{
    match p {
        FolderProbe::Existing { is_dir, writable } => {
            if !is_dir {
                String::from_str("Path exists but is not a directory")
            } else if writable {
                String::from_str("ok")
            } else {
                String::from_str("Folder exists but is not writable")
            }
        },
        FolderProbe::Missing { parent_is_dir } => match parent_is_dir {
            Some(true) => String::from_str("ok"),
            Some(false) => String::from_str("Parent directory does not exist"),
            None => String::from_str("Invalid path"),
        },
    }
}

/// Title and body of the notification after a capture: the saved file's
/// name (`screenshot` when it has none), or that it went to the clipboard.
pub fn capture_notification(saved: Option<Option<&str>>) -> (r: (String, String))
    ensures
        match saved {
            Some(name) => r.0@ == "Screenshot saved"@ && r.1@ == match name {
                Some(n) => n@,
                None => "screenshot"@,
            },
            None => r.0@ == "Screenshot captured"@ && r.1@ == "Copied to clipboard"@,
        },
{
    match saved {
        Some(name) => (
            String::from_str("Screenshot saved"),
            match name {
                Some(n) => String::from_str(n),
                None => String::from_str("screenshot"),
            },
        ),
        None => (String::from_str("Screenshot captured"), String::from_str("Copied to clipboard")),
    }
}

/// Title and body of the notification after a recording is saved.
pub fn recording_notification(file_name: Option<&str>) -> (r: (String, String))
    ensures
        r.0@ == "Recording saved"@,
        r.1@ == match file_name {
            Some(n) => n@,
            None => "recording"@,
        },
{
    (
        String::from_str("Recording saved"),
        match file_name {
            Some(n) => String::from_str(n),
            None => String::from_str("recording"),
        },
    )
}

/// Closing the settings window only hides it, so the tray application is
/// never quit by a window's close button.
pub fn close_hides_window(label: &str) -> (r: bool)
    ensures
        r == (label@ == "settings"@),
{
    crate::text::str_eq(label, "settings")
}

/// The notification shown once the hotkeys are registered.
pub fn ready_notification(hotkey: &str) -> (r: String)
    ensures
        r@ == "Press "@ + hotkey@ + " to capture"@,
{
    let mut m = String::from_str("Press ");
    m.append(hotkey);
    m.append(" to capture");
    m
}

/// The notification when the hotkeys could not be registered; on macOS it
/// points to the accessibility settings.
pub fn hotkey_failure_message(error: &str, macos: bool) -> (r: String)
    ensures
        r@ == "Failed to register hotkeys: "@ + error@ + (if macos {
            "\nCheck System Settings > Privacy & Security > Accessibility"@
        } else {
            ""@
        }),
{
    let mut m = String::from_str("Failed to register hotkeys: ");
    m.append(error);
    if macos {
        m.append("\nCheck System Settings > Privacy & Security > Accessibility");
    } else {
        proof {
            reveal_strlit("");
            assert(m@ + ""@ =~= m@);
        }
    }
    m
}

/// The body of the notification that a newer version is available.
pub fn update_notification(version: &str) -> (r: String)
    ensures
        r@ == "v"@ + version@ + " is ready \u{2014} open Settings > About to update."@,
{
    let mut m = String::from_str("v");
    m.append(version);
    m.append(" is ready \u{2014} open Settings > About to update.");
    m
}

} // verus!
