//! The persisted settings and their in-memory cache.

use vstd::prelude::*;

verus! {

/// A global hotkey as the settings record it: three modifier flags and the
/// name of one key.
#[derive(Debug)]
pub struct Hotkey {
    pub ctrl: bool,
    pub shift: bool,
    pub alt: bool,
    /// Name of the key, such as `"Semicolon"` or `"KeyJ"`.
    pub code: String,
}

impl Clone for Hotkey {
    fn clone(&self) -> (r: Self)
        ensures
            r == *self,
    {
        Hotkey { ctrl: self.ctrl, shift: self.shift, alt: self.alt, code: self.code.clone() }
    }
}

/// Everything the user can configure.
#[derive(Debug)]
pub struct Settings {
    pub hotkey: Hotkey,
}

impl Clone for Settings {
    fn clone(&self) -> (r: Self)
        ensures
            r == *self,
    {
        Settings { hotkey: self.hotkey.clone() }
    }
}

/// Whether these are the settings of a fresh installation: Control together
/// with the semicolon key.
pub open spec fn is_default(s: Settings) -> bool {
    &&& s.hotkey.ctrl
    &&& !s.hotkey.shift
    &&& !s.hotkey.alt
    &&& s.hotkey.code@ == "Semicolon"@
}

impl Default for Settings {
    /// Control together with the semicolon key.
    fn default() -> (r: Self)
        ensures
            is_default(r),
    {
        Settings {
            hotkey: Hotkey {
                ctrl: true,
                shift: false,
                alt: false,
                code: String::from_str("Semicolon"),
            },
        }
    }
}

/// The settings in force, held in memory so that the file is read once.
///
/// The cache is a plain owned value: whoever runs the application keeps one
/// and guards it against concurrent use.
pub struct SettingsCache {
    settings: Settings,
}

impl SettingsCache {
    /// The settings that the cache holds.
    pub closed spec fn settings(&self) -> Settings {
        self.settings
    }

    /// A cache that starts from what the settings file held, or from the
    /// default settings where nothing could be loaded.
    pub fn new(loaded: Option<Settings>) -> (r: Self)
        ensures
            loaded matches Some(s) ==> r.settings() == s,
            loaded is None ==> is_default(r.settings()),
    {
        match loaded {
            Some(s) => SettingsCache { settings: s },
            None => SettingsCache { settings: Settings::default() },
        }
    }
}

/// A copy of the cached settings.
pub fn get_cached(cache: &SettingsCache) -> (r: Settings)
    ensures
        r == cache.settings(),
{
    cache.settings.clone()
}

/// Replaces the cached settings.
pub fn set_cached(cache: &mut SettingsCache, s: Settings)
    ensures
        final(cache).settings() == s,
{
    cache.settings = s;
}

} // verus!
