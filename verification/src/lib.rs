//! The logic of a push-to-talk dictation tool: a key gesture starts and stops
//! a recording, the audio is resampled and transcribed, and the transcript is
//! inserted where the user types.
//!
//! This crate holds the parts that decide and compute, each with a contract
//! that Verus proves: the gesture detector ([`key_listener`]), the recording
//! lifecycle ([`app_state`]), the sample-rate converter ([`audio`]), and the
//! smaller rules around them. It touches no device, file or network; the
//! application around it performs what the crate asks for.

pub mod app_state;
pub mod audio;
pub mod azure_transcribe;
pub mod config;
pub mod insert;
pub mod key_listener;
pub mod logger;
pub mod text;
pub mod tray;
