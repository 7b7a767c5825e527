use fix_zhuyin::hotkey::{Binding, HotkeyError, HotkeyManager, HotkeyState, KeyCode, SwapStep};
use fix_zhuyin::pipeline::{handle_hotkey, set_settings, starts_cycle, SettingsError, ShortcutEdge};
use fix_zhuyin::settings::{get_cached, Hotkey, Settings, SettingsCache};
use fix_zhuyin::text::{is_blank_text, is_white_space, same_text, to_lower};

fn settings(ctrl: bool, code: &str) -> Settings {
    Settings { hotkey: Hotkey { ctrl, shift: false, alt: false, code: code.to_string() } }
}

#[test]
fn only_the_press_starts_a_cycle() {
    assert!(starts_cycle(ShortcutEdge::Pressed));
    assert!(!starts_cycle(ShortcutEdge::Released));
}

#[test]
fn hotkey_with_a_blank_selection_does_nothing() {
    assert_eq!(handle_hotkey(""), None);
    assert_eq!(handle_hotkey("   "), None);
    assert_eq!(handle_hotkey(" \t\r\n\u{3000}\u{a0}"), None);
}

#[test]
fn hotkey_retypes_the_selection() {
    assert_eq!(handle_hotkey("su3cl3"), Some(vec!['s', 'u', '3', 'c', 'l', '3']));
    assert_eq!(handle_hotkey("  ji3 g4\n"), Some(vec!['j', 'i', '3', 'g', '4']));
}

#[test]
fn hotkey_with_nothing_to_type_still_retypes() {
    assert_eq!(handle_hotkey("注音"), Some(Vec::<char>::new()));
}

#[test]
fn failed_save_changes_nothing() {
    let mut cache = SettingsCache::new(None);
    let manager = HotkeyManager::new();
    let r = set_settings(&mut cache, &manager, settings(false, "KeyJ"), false);
    assert_eq!(r, Err(SettingsError::Persist));
    let kept = get_cached(&cache);
    assert!(kept.hotkey.ctrl);
    assert_eq!(kept.hotkey.code, "Semicolon");
    assert_eq!(manager.state(), HotkeyState::Unregistered);
}

#[test]
fn failed_save_comes_before_an_unsupported_code() {
    let mut cache = SettingsCache::new(None);
    let manager = HotkeyManager::new();
    let r = set_settings(&mut cache, &manager, settings(false, "KeyQ"), false);
    assert_eq!(r, Err(SettingsError::Persist));
}

#[test]
fn saved_settings_reach_the_cache_and_the_hotkey() {
    let mut cache = SettingsCache::new(None);
    let manager = HotkeyManager::new();
    let r = set_settings(&mut cache, &manager, settings(false, "KeyJ"), true);
    assert_eq!(
        r,
        Ok(SwapStep::Register(Binding { ctrl: false, shift: false, alt: false, code: KeyCode::KeyJ }))
    );
    let now = get_cached(&cache);
    assert!(!now.hotkey.ctrl);
    assert_eq!(now.hotkey.code, "KeyJ");
}

#[test]
fn saved_settings_with_an_unsupported_code_reach_the_cache_only() {
    let mut cache = SettingsCache::new(None);
    let mut manager = HotkeyManager::new();
    let active = Binding { ctrl: true, shift: false, alt: false, code: KeyCode::Semicolon };
    assert_eq!(manager.confirm(active, true), Ok(None));
    let r = set_settings(&mut cache, &manager, settings(true, "KeyQ"), true);
    assert_eq!(r, Err(SettingsError::Hotkey(HotkeyError::UnsupportedCode)));
    assert_eq!(get_cached(&cache).hotkey.code, "KeyQ");
    assert_eq!(manager.state(), HotkeyState::Registered(active));
}

#[test]
fn saved_settings_with_the_active_binding_keep_it() {
    let mut cache = SettingsCache::new(None);
    let mut manager = HotkeyManager::new();
    let active = Binding { ctrl: true, shift: false, alt: false, code: KeyCode::Semicolon };
    assert_eq!(manager.confirm(active, true), Ok(None));
    let r = set_settings(&mut cache, &manager, settings(true, "Semicolon"), true);
    assert_eq!(r, Ok(SwapStep::Keep));
}

#[test]
fn lower_maps_ascii_capitals_only() {
    assert_eq!(to_lower('A'), 'a');
    assert_eq!(to_lower('Z'), 'z');
    assert_eq!(to_lower('M'), 'm');
    assert_eq!(to_lower('a'), 'a');
    assert_eq!(to_lower('@'), '@');
    assert_eq!(to_lower('['), '[');
    assert_eq!(to_lower('1'), '1');
    assert_eq!(to_lower('É'), 'É');
    assert_eq!(to_lower('ㄇ'), 'ㄇ');
    for c in ['A', 'Q', 'z', '0', ';', 'É', 'Ω'] {
        assert_eq!(to_lower(c), c.to_ascii_lowercase());
    }
}

#[test]
fn white_space_is_what_unicode_says() {
    let mut code: u32 = 0;
    while code <= 0x3100 {
        if let Some(c) = char::from_u32(code) {
            assert_eq!(is_white_space(c), c.is_whitespace());
        }
        code += 1;
    }
    assert!(is_white_space(' '));
    assert!(is_white_space('\u{3000}'));
    assert!(!is_white_space('a'));
    assert!(!is_white_space('\u{200B}'));
}

#[test]
fn blank_text() {
    assert!(is_blank_text(""));
    assert!(is_blank_text(" \n\t"));
    assert!(!is_blank_text(" a "));
    assert!(!is_blank_text("ㄇ"));
    for s in ["", "  ", "\u{2003}", " x", "x ", "\u{feff}"] {
        assert_eq!(is_blank_text(s), s.trim().is_empty());
    }
}

#[test]
fn same_text_compares_contents() {
    assert!(same_text("", ""));
    assert!(same_text("KeyJ", "KeyJ"));
    assert!(!same_text("KeyJ", "KeyK"));
    assert!(!same_text("KeyJ", "KeyJ "));
    assert!(!same_text("a", ""));
}
