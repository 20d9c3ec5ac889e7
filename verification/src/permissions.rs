//! The permissions that the host application needs, and the message that
//! tells a user which of them are missing.

use vstd::prelude::*;
use vstd::string::StringExecFns;

verus! {

/// Which permissions the host application holds. `None` stands for a
/// permission that could not be probed.
#[derive(Clone, Copy, Debug, PartialEq, Eq)]
pub struct PermissionStatus {
    pub full_disk_access: bool,
    pub accessibility: bool,
    pub automation: Option<bool>,
    pub screen_recording: Option<bool>,
}

/// The line on missing full disk access.
pub open spec fn full_disk_access_line() -> Seq<char> {
    "❌ Full Disk Access - Required for reading Cursor database"@
}

/// The line on missing accessibility.
pub open spec fn accessibility_line() -> Seq<char> {
    "❌ Accessibility - Required for IDE state capture"@
}

/// The line on missing screen recording.
pub open spec fn screen_recording_line() -> Seq<char> {
    "⚠️  Screen Recording - Optional for screenshot capture"@
}

/// The lines for the permissions that are known to be missing, in a fixed
/// order. Automation is never reported.
pub open spec fn missing_lines(status: PermissionStatus) -> Seq<Seq<char>> {
    let disk: Seq<Seq<char>> = if !status.full_disk_access {
        seq![full_disk_access_line()]
    } else {
        Seq::empty()
    };
    let access: Seq<Seq<char>> = if !status.accessibility {
        seq![accessibility_line()]
    } else {
        Seq::empty()
    };
    let screen: Seq<Seq<char>> = if status.screen_recording == Some(false) {
        seq![screen_recording_line()]
    } else {
        Seq::empty()
    };
    disk + access + screen
}

/// Lines joined by `separator`, which stands between them and not at the ends.
pub open spec fn joined(lines: Seq<Seq<char>>, separator: Seq<char>) -> Seq<char>
    decreases lines.len(),
{
    if lines.len() == 0 {
        Seq::empty()
    } else if lines.len() == 1 {
        lines[0]
    } else {
        joined(lines.drop_last(), separator) + separator + lines.last()
    }
}

/// The message for a status: the missing permissions, one per line, or that
/// all are granted.
pub open spec fn status_message(status: PermissionStatus) -> Seq<char> {
    if missing_lines(status).len() == 0 {
        "✅ All permissions granted!"@
    } else {
        joined(missing_lines(status), "\n"@)
    }
}

/// A list of texts, each by its characters.
pub open spec fn texts_of(lines: Seq<&'static str>) -> Seq<Seq<char>> {
    lines.map_values(|l: &'static str| l@)
}

/// Joins lines with a separator between them.
pub fn join(lines: &Vec<&'static str>, separator: &str) -> (text: String)
    ensures
        text@ == joined(texts_of(lines@), separator@),
{
    let ghost all = texts_of(lines@);
    let mut text = String::new();
    let mut i: usize = 0;
    while i < lines.len()
        invariant
            i <= lines.len(),
            all == texts_of(lines@),
            text@ == joined(all.take(i as int), separator@),
        decreases lines.len() - i,
    {
        proof {
            assert(all.take(i + 1).drop_last() =~= all.take(i as int));
            assert(all.take(i + 1).last() == lines@[i as int]@);
            assert(all.take(1)[0] == all[0]);
        }
        if i > 0 {
            text.append(separator);
        }
        text.append(lines[i]);
        proof {
            if i == 0 {
                assert(text@ =~= lines@[0]@);
            }
        }
        i = i + 1;
    }
    proof {
        assert(all.take(i as int) =~= all);
    }
    text
}

/// Tells a user which permissions are missing, one per line, or that all are
/// granted.
pub fn get_permission_status_message(status: PermissionStatus) -> (message: String)
    ensures
        message@ == status_message(status),
{
    let mut messages: Vec<&'static str> = Vec::new();
    if !status.full_disk_access {
        messages.push("❌ Full Disk Access - Required for reading Cursor database");
    }
    if !status.accessibility {
        messages.push("❌ Accessibility - Required for IDE state capture");
    }
    match status.screen_recording {
        Some(screen_recording) => {
            if !screen_recording {
                messages.push("⚠️  Screen Recording - Optional for screenshot capture");
            }
        },
        None => {},
    }
    proof {
        assert(texts_of(messages@) =~= missing_lines(status));
    }
    if messages.len() == 0 {
        "✅ All permissions granted!".to_owned()
    } else {
        join(&messages, "\n")
    }
}

/// The address of the pane of the system settings that grants a permission;
/// for a permission without a pane of its own, the address of the security
/// settings.
pub open spec fn settings_url(permission_type: Seq<char>) -> Seq<char> {
    if permission_type == "full_disk_access"@ {
        "x-apple.systempreferences:com.apple.preference.security?Privacy_AllFiles"@
    } else if permission_type == "accessibility"@ {
        "x-apple.systempreferences:com.apple.preference.security?Privacy_Accessibility"@
    } else if permission_type == "screen_recording"@ {
        "x-apple.systempreferences:com.apple.preference.security?Privacy_ScreenCapture"@
    } else if permission_type == "automation"@ {
        "x-apple.systempreferences:com.apple.preference.security?Privacy_Automation"@
    } else {
        "x-apple.systempreferences:com.apple.preference.security"@
    }
}

/// Picks the address of the settings pane for a permission by its name.
pub fn permission_settings_url(permission_type: &String) -> (url: &'static str)
    ensures
        url@ == settings_url(permission_type@),
{
    if *permission_type == "full_disk_access".to_owned() {
        "x-apple.systempreferences:com.apple.preference.security?Privacy_AllFiles"
    } else if *permission_type == "accessibility".to_owned() {
        "x-apple.systempreferences:com.apple.preference.security?Privacy_Accessibility"
    } else if *permission_type == "screen_recording".to_owned() {
        "x-apple.systempreferences:com.apple.preference.security?Privacy_ScreenCapture"
    } else if *permission_type == "automation".to_owned() {
        "x-apple.systempreferences:com.apple.preference.security?Privacy_Automation"
    } else {
        "x-apple.systempreferences:com.apple.preference.security"
    }
}

} // verus!
