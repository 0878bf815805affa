//! What it takes to insert a transcript: the keystrokes that make the
//! application in front paste, and the text of the clipboard to put back.

use crate::app_state::text_of;
use vstd::prelude::*;

verus! {

/// The kind of system that the application runs on.
#[derive(Clone, Copy, Debug, PartialEq, Eq, Structural)]
pub enum Platform {
    MacOs,
    Windows,
    Other,
}

/// One key event to send: the key, the direction, and whether the event is
/// marked as made with the command key held.
#[derive(Clone, Copy, Debug, PartialEq, Eq, Structural)]
pub struct KeyStroke {
    pub key: u16,
    pub key_up: bool,
    pub command: bool,
}

/// The code of the key `V` where keys are told by their place.
pub const MACOS_KEY_V: u16 = 0x09;

/// The code of the control key.
pub const WINDOWS_VK_CONTROL: u16 = 0x11;

/// The code of the key `V` where keys are told by their letter.
pub const WINDOWS_VK_V: u16 = 0x56;

/// The time, in milliseconds, that the application in front is given to
/// take the clipboard before it is put back.
pub const PASTE_SETTLE_MS: u64 = 150;

/// The key events that make the application in front paste, or the error
/// where no way to send them is known.
pub open spec fn paste_spec(platform: Platform) -> Result<Seq<KeyStroke>, Seq<char>> {
    match platform {
        Platform::MacOs => Ok(
            seq![
                KeyStroke { key: MACOS_KEY_V, key_up: false, command: true },
                KeyStroke { key: MACOS_KEY_V, key_up: true, command: true },
            ],
        ),
        Platform::Windows => Ok(
            seq![
                KeyStroke { key: WINDOWS_VK_CONTROL, key_up: false, command: false },
                KeyStroke { key: WINDOWS_VK_V, key_up: false, command: false },
                KeyStroke { key: WINDOWS_VK_V, key_up: true, command: false },
                KeyStroke { key: WINDOWS_VK_CONTROL, key_up: true, command: false },
            ],
        ),
        Platform::Other => Err("paste injection is not supported on this platform"@),
    }
}

/// The view of the key events or of the error in their place.
pub open spec fn strokes_view(r: Result<Vec<KeyStroke>, String>) -> Result<
    Seq<KeyStroke>,
    Seq<char>,
> {
    match r {
        Ok(v) => Ok(v@),
        Err(e) => Err(e@),
    }
}

/// The key events of a paste; see [`paste_spec`].
pub fn paste(platform: Platform) -> (r: Result<Vec<KeyStroke>, String>)
    ensures
        strokes_view(r) == paste_spec(platform),
{
    match platform {
        Platform::MacOs => {
            let mut v: Vec<KeyStroke> = Vec::new();
            v.push(KeyStroke { key: MACOS_KEY_V, key_up: false, command: true });
            v.push(KeyStroke { key: MACOS_KEY_V, key_up: true, command: true });
            assert(v@ =~= paste_spec(platform)->Ok_0);
            Ok(v)
        },
        Platform::Windows => {
            let mut v: Vec<KeyStroke> = Vec::new();
            v.push(KeyStroke { key: WINDOWS_VK_CONTROL, key_up: false, command: false });
            v.push(KeyStroke { key: WINDOWS_VK_V, key_up: false, command: false });
            v.push(KeyStroke { key: WINDOWS_VK_V, key_up: true, command: false });
            v.push(KeyStroke { key: WINDOWS_VK_CONTROL, key_up: true, command: false });
            assert(v@ =~= paste_spec(platform)->Ok_0);
            Ok(v)
        },
        Platform::Other => Err("paste injection is not supported on this platform".to_owned()),
    }
}

/// What was on the clipboard before a transcript took its place, kept to be
/// put back.
pub struct ClipboardGuard {
    original_text: Option<String>,
}

impl ClipboardGuard {
    /// The text that is kept.
    pub closed spec fn kept(&self) -> Option<Seq<char>> {
        text_of(self.original_text)
    }

    /// Keeps `previous`, the text that was on the clipboard if it held one,
    /// where `restore_original` asks for it, and nothing otherwise.
    pub fn new(previous: Option<String>, restore_original: bool) -> (g: Self)
        ensures
            g.kept() == (if restore_original {
                text_of(previous)
            } else {
                None
            }),
    {
        ClipboardGuard {
            original_text: if restore_original {
                previous
            } else {
                None
            },
        }
    }

    /// The text to put back on the clipboard, if any was kept.
    pub fn restore(self) -> (text: Option<String>)
        ensures
            text_of(text) == self.kept(),
    {
        self.original_text
    }
}

} // verus!
