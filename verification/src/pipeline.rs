//! The decisions at the two ends of the pipeline: what a press of the
//! hotkey leads to once the selection has been captured, and what a change
//! of settings leads to once the settings file has been written.

use crate::hotkey::{planned, register_from_settings, HotkeyError, HotkeyManager, SwapStep};
use crate::os::{is_typed, retype_key_sequence};
use crate::settings::{set_cached, Settings, SettingsCache};
use crate::text::{is_blank, is_blank_text};
use vstd::prelude::*;

verus! {

/// Why new settings were not put in force.
#[derive(Clone, Copy, Debug, PartialEq, Eq, Structural)]
pub enum SettingsError {
    /// The settings file could not be written.
    Persist,
    /// The file was written, but the hotkey cannot be registered.
    Hotkey(HotkeyError),
}

/// The edge of the hotkey that an event reports.
#[derive(Clone, Copy, Debug, PartialEq, Eq, Structural)]
pub enum ShortcutEdge {
    Pressed,
    Released,
}

/// Whether an event of the hotkey starts a cycle: the press does, the
/// release does not.
pub fn starts_cycle(edge: ShortcutEdge) -> (r: bool)
    ensures
        r == (edge is Pressed),
{
    match edge {
        ShortcutEdge::Pressed => true,
        ShortcutEdge::Released => false,
    }
}

/// What a press of the hotkey leads to, given the text that the capture
/// returned: nothing where the text is blank, else the keys to retype.
pub fn handle_hotkey(selected: &str) -> (r: Option<Vec<char>>)
    ensures
        is_blank(selected@) <==> r is None,
        r matches Some(keys) ==> keys@ == selected@.filter(|c: char| is_typed(c)),
{
    if is_blank_text(selected) {
        None
    } else {
        Some(retype_key_sequence(selected))
    }
}

/// What the cache and the first step of the hotkey swap are once new
/// settings have been handed in, as [`set_settings`] computes them.
pub open spec fn settings_change(
    cached: Settings,
    state: crate::hotkey::HotkeyState,
    new_settings: Settings,
    saved: bool,
) -> (Settings, Result<SwapStep, SettingsError>) {
    if !saved {
        (cached, Err(SettingsError::Persist))
    } else {
        (
            new_settings,
            match planned(state, new_settings.hotkey) {
                Ok(step) => Ok(step),
                Err(e) => Err(SettingsError::Hotkey(e)),
            },
        )
    }
}

/// Puts new settings in force, after the attempt to write them to the
/// settings file; `saved` says whether that attempt succeeded.
///
/// A failed write changes nothing, so that the cache never holds what the
/// file does not. After a successful write the cache holds the new
/// settings, whatever becomes of the hotkey, and the result is the first
/// step of the hotkey swap or the reason why there is none.
pub fn set_settings(
    cache: &mut SettingsCache,
    manager: &HotkeyManager,
    new_settings: Settings,
    saved: bool,
) -> (r: Result<SwapStep, SettingsError>)
    ensures
        (final(cache).settings(), r) == settings_change(
            old(cache).settings(),
            manager@,
            new_settings,
            saved,
        ),
{
    if !saved {
        return Err(SettingsError::Persist);
    }
    let step = register_from_settings(manager, &new_settings);
    set_cached(cache, new_settings);
    match step {
        Ok(step) => Ok(step),
        Err(e) => Err(SettingsError::Hotkey(e)),
    }
}

} // verus!
