use lock_ime::autostart::utf16_le_bytes;
use lock_ime::config::{CapslockAction, CapslockSwitchMode, Config, JapaneseMode};

fn legacy(enabled: Option<bool>, mode: Option<CapslockSwitchMode>) -> Config {
    let mut c = Config::default();
    c.capslock_switch_enabled = enabled;
    c.capslock_switch_mode = mode;
    c
}

#[test]
fn default_config_values() {
    let c = Config::default();
    assert!(c.chinese_lock_enabled);
    assert!(c.japanese_lock_enabled);
    assert_eq!(c.japanese_mode, JapaneseMode::Hiragana);
    assert_eq!(c.capslock_short_action, CapslockAction::CjkUs);
    assert_eq!(c.capslock_long_action, CapslockAction::CapsLock);
    assert_eq!(c.capslock_longpress_ms, 300);
    assert!(!c.autostart);
    assert!(c.capslock_active());
    assert!(!c.has_legacy());
}

#[test]
fn enum_defaults() {
    assert_eq!(JapaneseMode::default(), JapaneseMode::Hiragana);
    assert_eq!(CapslockAction::default(), CapslockAction::CjkUs);
}

#[test]
fn capslock_active_only_false_when_both_capslock() {
    let mut c = Config::default();
    c.capslock_short_action = CapslockAction::CapsLock;
    c.capslock_long_action = CapslockAction::CapsLock;
    assert!(!c.capslock_active());
    c.capslock_long_action = CapslockAction::Cycle;
    assert!(c.capslock_active());
    c.capslock_short_action = CapslockAction::Cycle;
    c.capslock_long_action = CapslockAction::CapsLock;
    assert!(c.capslock_active());
}

#[test]
fn migrate_enabled_with_mode() {
    let c = Config::migrate(legacy(Some(true), Some(CapslockSwitchMode::Cycle)));
    assert_eq!(c.capslock_short_action, CapslockAction::Cycle);
    assert_eq!(c.capslock_long_action, CapslockAction::CapsLock);
    assert!(c.capslock_switch_enabled.is_none());
    assert!(c.capslock_switch_mode.is_none());
    assert!(c.capslock_active());
}

#[test]
fn migrate_enabled_without_mode_defaults_to_cjk_us() {
    let mut start = legacy(Some(true), None);
    start.capslock_short_action = CapslockAction::Cycle;
    let c = Config::migrate(start);
    assert_eq!(c.capslock_short_action, CapslockAction::CjkUs);
    assert_eq!(c.capslock_long_action, CapslockAction::CapsLock);
}

#[test]
fn migrate_disabled_hands_capslock_back() {
    let c = Config::migrate(legacy(Some(false), Some(CapslockSwitchMode::Cycle)));
    assert_eq!(c.capslock_short_action, CapslockAction::CapsLock);
    assert_eq!(c.capslock_long_action, CapslockAction::CapsLock);
    assert!(!c.capslock_active());
    assert!(!c.has_legacy());
}

#[test]
fn migrate_mode_only_means_enabled() {
    let c = Config::migrate(legacy(None, Some(CapslockSwitchMode::Cycle)));
    assert_eq!(c.capslock_short_action, CapslockAction::Cycle);
    assert_eq!(c.capslock_long_action, CapslockAction::CapsLock);
}

#[test]
fn migrate_without_legacy_changes_nothing() {
    let mut start = Config::default();
    start.capslock_short_action = CapslockAction::CapsLock;
    start.capslock_long_action = CapslockAction::Cycle;
    start.capslock_longpress_ms = 450;
    let c = Config::migrate(start);
    assert_eq!(c.capslock_short_action, CapslockAction::CapsLock);
    assert_eq!(c.capslock_long_action, CapslockAction::Cycle);
    assert_eq!(c.capslock_longpress_ms, 450);
}

#[test]
fn migrate_twice_is_migrate_once() {
    let once = Config::migrate(legacy(Some(false), None));
    let twice = Config::migrate(once.clone());
    assert_eq!(once.capslock_short_action, twice.capslock_short_action);
    assert_eq!(once.capslock_long_action, twice.capslock_long_action);
    assert!(!twice.has_legacy());
}

#[test]
fn migrate_keeps_other_settings() {
    let mut start = legacy(Some(true), Some(CapslockSwitchMode::CjkUs));
    start.chinese_lock_enabled = false;
    start.japanese_mode = JapaneseMode::Katakana;
    start.capslock_longpress_ms = 800;
    start.autostart = true;
    let c = Config::migrate(start);
    assert!(!c.chinese_lock_enabled);
    assert_eq!(c.japanese_mode, JapaneseMode::Katakana);
    assert_eq!(c.capslock_longpress_ms, 800);
    assert!(c.autostart);
}

#[test]
fn from_loaded_missing_file_gives_defaults_and_writes() {
    let (c, write) = Config::from_loaded(None);
    assert!(write);
    assert_eq!(c.capslock_longpress_ms, 300);
    assert_eq!(c.capslock_short_action, CapslockAction::CjkUs);
}

#[test]
fn from_loaded_legacy_file_is_written_back() {
    let (c, write) = Config::from_loaded(Some(legacy(Some(false), None)));
    assert!(write);
    assert!(!c.capslock_active());
    let (_, write2) = Config::from_loaded(Some(c));
    assert!(!write2);
}

#[test]
fn tray_switch_sets_capslock_active() {
    let mut c = Config::default();
    c.set_capslock_switch(false, CapslockSwitchMode::CjkUs);
    assert!(!c.capslock_active());
    assert_eq!(c.capslock_short_action, CapslockAction::CapsLock);
    c.set_capslock_switch(true, CapslockSwitchMode::CjkUs);
    assert!(c.capslock_active());
    assert_eq!(c.capslock_short_action, CapslockAction::CjkUs);
    assert_eq!(c.capslock_long_action, CapslockAction::CapsLock);
}

#[test]
fn switch_mode_follows_short_action() {
    let mut c = Config::default();
    assert_eq!(c.switch_mode(), CapslockSwitchMode::CjkUs);
    c.capslock_short_action = CapslockAction::Cycle;
    assert_eq!(c.switch_mode(), CapslockSwitchMode::Cycle);
    c.capslock_short_action = CapslockAction::CapsLock;
    assert_eq!(c.switch_mode(), CapslockSwitchMode::CjkUs);
}

#[test]
fn registry_bytes_are_little_endian() {
    let units: Vec<u16> = "\"C:\\lock\"".encode_utf16().chain(std::iter::once(0)).collect();
    let bytes = utf16_le_bytes(&units);
    assert_eq!(bytes.len(), units.len() * 2);
    assert_eq!(&bytes[..4], &[0x22, 0x00, 0x43, 0x00]);
    assert_eq!(utf16_le_bytes(&vec![0x1234, 0xABCD]), vec![0x34, 0x12, 0xCD, 0xAB]);
}
