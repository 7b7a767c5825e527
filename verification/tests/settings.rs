use fix_zhuyin::settings::{get_cached, set_cached, Hotkey, Settings, SettingsCache};

#[test]
fn default_settings_bind_ctrl_semicolon() {
    let s = Settings::default();
    assert!(s.hotkey.ctrl);
    assert!(!s.hotkey.shift);
    assert!(!s.hotkey.alt);
    assert_eq!(s.hotkey.code, "Semicolon");
}

#[test]
fn cache_starts_from_what_was_loaded() {
    let loaded =
        Settings { hotkey: Hotkey { ctrl: false, shift: true, alt: true, code: "KeyL".to_string() } };
    let cache = SettingsCache::new(Some(loaded));
    let s = get_cached(&cache);
    assert!(!s.hotkey.ctrl);
    assert!(s.hotkey.shift);
    assert!(s.hotkey.alt);
    assert_eq!(s.hotkey.code, "KeyL");
}

#[test]
fn cache_starts_from_the_default_where_nothing_was_loaded() {
    let cache = SettingsCache::new(None);
    let s = get_cached(&cache);
    assert!(s.hotkey.ctrl);
    assert!(!s.hotkey.shift);
    assert!(!s.hotkey.alt);
    assert_eq!(s.hotkey.code, "Semicolon");
}

#[test]
fn set_cached_replaces_the_settings() {
    let mut cache = SettingsCache::new(None);
    set_cached(
        &mut cache,
        Settings { hotkey: Hotkey { ctrl: false, shift: false, alt: true, code: "KeyJ".to_string() } },
    );
    let s = get_cached(&cache);
    assert!(!s.hotkey.ctrl);
    assert!(!s.hotkey.shift);
    assert!(s.hotkey.alt);
    assert_eq!(s.hotkey.code, "KeyJ");
    let again = get_cached(&cache);
    assert_eq!(again.hotkey.code, "KeyJ");
}

#[test]
fn clone_keeps_every_field() {
    let s = Settings { hotkey: Hotkey { ctrl: true, shift: true, alt: false, code: "KeyK".to_string() } };
    let c = s.clone();
    assert_eq!(c.hotkey.ctrl, s.hotkey.ctrl);
    assert_eq!(c.hotkey.shift, s.hotkey.shift);
    assert_eq!(c.hotkey.alt, s.hotkey.alt);
    assert_eq!(c.hotkey.code, s.hotkey.code);
}
