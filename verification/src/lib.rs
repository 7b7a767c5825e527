//! Repair of text that was typed while the input method was in the wrong
//! mode: the decisions of the pipeline that captures the selected key
//! sequence, previews it as phonetic symbols and types it again, together
//! with the discipline of the single global hotkey that starts it.
//!
//! The library touches neither the clipboard, the keyboard nor the hotkey
//! registry. Each operation that needs them is a state machine here: it says
//! what has to be done outside, and is told what came of it.

pub mod conv;
pub mod hotkey;
pub mod os;
pub mod pipeline;
pub mod settings;
pub mod text;
