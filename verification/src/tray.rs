//! What the tray shows for a status: the icon, the tooltip, and the entry of
//! the menu that starts or stops a recording.

use crate::app_state::{lifecycle_of, Lifecycle, Status, StatusView};
use crate::text::{chars_of, push_str, replace_all, replaced, str_eq, string_of};
use vstd::prelude::*;
use vstd::string::StringExecFns;

verus! {

/// The icon that the tray shows.
#[derive(Clone, Copy, Debug, PartialEq, Eq, Structural)]
pub enum TrayIcon {
    Idle,
    Recording,
    Busy,
    Error,
}

/// What an entry of the tray menu asks for.
#[derive(Clone, Copy, Debug, PartialEq, Eq, Structural)]
pub enum MenuCommand {
    /// Start a recording, or stop the one that runs.
    Toggle,
    /// Show the settings window.
    Settings,
    /// Leave the application.
    Quit,
}

/// The attribute that an icon drawing carries in place of a colour.
pub open spec fn stroke_placeholder() -> Seq<char> {
    "stroke=\"currentColor\""@
}

/// The attribute that gives an icon drawing the colour `stroke`.
pub open spec fn stroke_attribute(stroke: Seq<char>) -> Seq<char> {
    "stroke=\""@ + stroke + "\""@
}

/// The icon drawing `svg` with the colour `stroke` in every place that was
/// left open for a colour.
pub fn lucide_svg_with_stroke(svg: &str, stroke: &str) -> (r: String)
    ensures
        r@ == replaced(svg@, stroke_placeholder(), stroke_attribute(stroke@)),
{
    let s = chars_of(svg);
    let pat = chars_of("stroke=\"currentColor\"");
    let mut to: Vec<char> = Vec::new();
    push_str(&mut to, "stroke=\"");
    push_str(&mut to, stroke);
    push_str(&mut to, "\"");
    let out = replace_all(&s, &pat, &to);
    string_of(&out, 0, out.len())
}

/// The label of the menu entry that starts or stops a recording, and
/// whether the entry can be chosen.
pub open spec fn toggle_menu_state_spec(status: StatusView) -> (Seq<char>, bool) {
    match lifecycle_of(status.state) {
        Lifecycle::Recording => ("Stop"@, true),
        Lifecycle::Transcribing => ("Start"@, false),
        Lifecycle::Inserting => ("Start"@, false),
        Lifecycle::Idle => ("Start"@, true),
    }
}

/// The label and the state of the menu entry that starts or stops a
/// recording; see [`toggle_menu_state_spec`].
pub fn toggle_menu_state(status: &Status) -> (r: (&'static str, bool))
    ensures
        (r.0@, r.1) == toggle_menu_state_spec(status@),
{
    match status.lifecycle() {
        Lifecycle::Recording => ("Stop", true),
        Lifecycle::Transcribing => ("Start", false),
        Lifecycle::Inserting => ("Start", false),
        Lifecycle::Idle => ("Start", true),
    }
}

/// The icon for a status: the error icon while an error is remembered,
/// else the icon of the phase.
pub open spec fn tray_icon_spec(status: StatusView) -> TrayIcon {
    if status.last_error is Some {
        TrayIcon::Error
    } else {
        match lifecycle_of(status.state) {
            Lifecycle::Recording => TrayIcon::Recording,
            Lifecycle::Transcribing => TrayIcon::Busy,
            Lifecycle::Inserting => TrayIcon::Busy,
            Lifecycle::Idle => TrayIcon::Idle,
        }
    }
}

/// The word of the tooltip for a status: `Error` while an error is
/// remembered, else the name of the phase.
pub open spec fn tooltip_state(status: StatusView) -> Seq<char> {
    if status.last_error is Some {
        "Error"@
    } else {
        match lifecycle_of(status.state) {
            Lifecycle::Recording => "Recording"@,
            Lifecycle::Transcribing => status.state,
            Lifecycle::Inserting => status.state,
            Lifecycle::Idle => "Idle"@,
        }
    }
}

/// The tooltip for a status.
pub open spec fn tooltip_spec(status: StatusView) -> Seq<char> {
    "VoiceDictation ("@ + tooltip_state(status) + ")"@
}

/// The icon and the tooltip that the tray shows for a status.
pub fn update_for_status(status: &Status) -> (r: (TrayIcon, String))
    ensures
        r.0 == tray_icon_spec(status@),
        r.1@ == tooltip_spec(status@),
{
    let phase = status.lifecycle();
    let mut tooltip = "VoiceDictation (".to_owned();
    let icon = if status.last_error.is_some() {
        tooltip.append("Error");
        TrayIcon::Error
    } else {
        match phase {
            Lifecycle::Recording => {
                tooltip.append("Recording");
                TrayIcon::Recording
            },
            Lifecycle::Transcribing => {
                tooltip.append(status.state.as_str());
                TrayIcon::Busy
            },
            Lifecycle::Inserting => {
                tooltip.append(status.state.as_str());
                TrayIcon::Busy
            },
            Lifecycle::Idle => {
                tooltip.append("Idle");
                TrayIcon::Idle
            },
        }
    };
    tooltip.append(")");
    (icon, tooltip)
}

/// The command behind the menu entry with the identifier `id`, if it has one.
pub fn menu_command(id: &str) -> (r: Option<MenuCommand>)
    ensures
        r == (if id@ == "toggle"@ {
            Some(MenuCommand::Toggle)
        } else if id@ == "settings"@ {
            Some(MenuCommand::Settings)
        } else if id@ == "quit"@ {
            Some(MenuCommand::Quit)
        } else {
            None
        }),
{
    if str_eq(id, "toggle") {
        Some(MenuCommand::Toggle)
    } else if str_eq(id, "settings") {
        Some(MenuCommand::Settings)
    } else if str_eq(id, "quit") {
        Some(MenuCommand::Quit)
    } else {
        None
    }
}

} // verus!
