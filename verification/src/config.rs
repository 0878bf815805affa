//! The settings of the application and their defaults.

use vstd::prelude::*;

verus! {

/// What is appended to a transcript before it is inserted.
#[derive(Debug, Clone, Copy, PartialEq, Eq, Structural)]
pub enum InsertPostfix {
    /// Nothing is appended.
    NoPostfix,
}

/// Where the transcription service is reached, and the key it asks for.
#[derive(Debug, Clone, PartialEq, Eq)]
pub struct AzureConfig {
    pub endpoint: String,
    pub deployment: String,
    pub api_version: String,
    pub api_key: String,
}

/// The key combination, in its textual form.
#[derive(Debug, Clone, PartialEq, Eq)]
pub struct HotkeyConfig {
    pub windows: String,
}

/// The time limits of the key gestures, in milliseconds.
#[derive(Debug, Clone, Copy, PartialEq, Eq, Structural)]
pub struct ThresholdsConfig {
    pub hold_ms: u64,
    pub double_click_ms: u64,
}

/// The longest time a recording may run, in seconds.
#[derive(Debug, Clone, Copy, PartialEq, Eq, Structural)]
pub struct RecordingConfig {
    pub max_seconds: u64,
}

/// How a transcript is inserted.
#[derive(Debug, Clone, Copy, PartialEq, Eq, Structural)]
pub struct InsertConfig {
    pub restore_clipboard: bool,
    pub postfix: InsertPostfix,
}

/// Whether a sound marks the start and the end of a recording.
#[derive(Debug, Clone, Copy, PartialEq, Eq, Structural)]
pub struct SoundConfig {
    pub enabled: bool,
}

/// All settings.
#[derive(Debug, Clone, PartialEq, Eq)]
pub struct Config {
    pub azure: AzureConfig,
    pub hotkey: HotkeyConfig,
    pub thresholds: ThresholdsConfig,
    pub recording: RecordingConfig,
    pub insert: InsertConfig,
    pub sound: SoundConfig,
}

impl Default for AzureConfig {
    fn default() -> (r: Self)
        ensures
            r.endpoint@.len() == 0,
            r.deployment@.len() == 0,
            r.api_version@ == "2025-03-01-preview"@,
            r.api_key@.len() == 0,
    {
        AzureConfig {
            endpoint: String::new(),
            deployment: String::new(),
            api_version: "2025-03-01-preview".to_owned(),
            api_key: String::new(),
        }
    }
}

impl Default for HotkeyConfig {
    fn default() -> (r: Self)
        ensures
            r.windows@ == "Ctrl"@,
    {
        HotkeyConfig { windows: "Ctrl".to_owned() }
    }
}

impl Default for ThresholdsConfig {
    fn default() -> (r: Self)
        ensures
            r == (ThresholdsConfig { hold_ms: 180, double_click_ms: 300 }),
    {
        ThresholdsConfig { hold_ms: 180, double_click_ms: 300 }
    }
}

impl Default for RecordingConfig {
    fn default() -> (r: Self)
        ensures
            r == (RecordingConfig { max_seconds: 120 }),
    {
        RecordingConfig { max_seconds: 120 }
    }
}

impl Default for InsertConfig {
    fn default() -> (r: Self)
        ensures
            r == (InsertConfig { restore_clipboard: true, postfix: InsertPostfix::NoPostfix }),
    {
        InsertConfig { restore_clipboard: true, postfix: InsertPostfix::NoPostfix }
    }
}

impl Default for SoundConfig {
    fn default() -> (r: Self)
        ensures
            r == (SoundConfig { enabled: true }),
    {
        SoundConfig { enabled: true }
    }
}

impl Default for Config {
    fn default() -> (r: Self)
        ensures
            r.azure.endpoint@.len() == 0,
            r.azure.deployment@.len() == 0,
            r.azure.api_version@ == "2025-03-01-preview"@,
            r.azure.api_key@.len() == 0,
            r.hotkey.windows@ == "Ctrl"@,
            r.thresholds == (ThresholdsConfig { hold_ms: 180, double_click_ms: 300 }),
            r.recording == (RecordingConfig { max_seconds: 120 }),
            r.insert == (InsertConfig {
                restore_clipboard: true,
                postfix: InsertPostfix::NoPostfix,
            }),
            r.sound == (SoundConfig { enabled: true }),
    {
        Config {
            azure: AzureConfig::default(),
            hotkey: HotkeyConfig::default(),
            thresholds: ThresholdsConfig::default(),
            recording: RecordingConfig::default(),
            insert: InsertConfig::default(),
            sound: SoundConfig::default(),
        }
    }
}

} // verus!
