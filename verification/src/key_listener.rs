//! The global key gesture detector: the configured key combination, the state of
//! the keys it watches, and the classification of raw key events into intents.

pub mod gesture;
pub mod hotkey;
