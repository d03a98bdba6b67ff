use lock_ime::config::{CapslockAction, CapslockSwitchMode, Config, JapaneseMode};
use lock_ime::events::{apply_for_foreground, is_password_class, LockJob};
use lock_ime::flyout::{
    action_at, action_index, begin_show, hide_panel, island_frame, japanese_at, japanese_index,
    on_anim_tick, on_expand_state, panel_h, phys_h, place, scale, stop_collapse, threshold_ms,
    toggle_at, AnimStep, Edges, ExpandStep, IslandPos, PanelState, Placement, ToggleStep,
};
use lock_ime::ime::imm32::{needs_conversion, needs_open};
use lock_ime::ime::japanese_conversion_mode;
use lock_ime::ime::tsf::available;
use lock_ime::settings_window::{
    apply_controls, format_ms, load_config_to_controls, parse_threshold,
};
use lock_ime::tray::japanese_label;

fn w(s: &str) -> Vec<u16> {
    s.encode_utf16().collect()
}

#[test]
fn conversion_modes() {
    assert_eq!(japanese_conversion_mode(JapaneseMode::Hiragana), 0x9);
    assert_eq!(japanese_conversion_mode(JapaneseMode::Katakana), 0xB);
    assert_eq!(japanese_conversion_mode(JapaneseMode::FullWidthAlnum), 0x8);
}

#[test]
fn tsf_not_available() {
    assert!(!available());
}

#[test]
fn ime_decisions_leave_correct_mode_alone() {
    assert!(!needs_open(Some(true)));
    assert!(needs_open(Some(false)));
    assert!(needs_open(None));
    assert!(!needs_conversion(Some(9), 9));
    assert!(needs_conversion(Some(8), 9));
    assert!(needs_conversion(None, 9));
}

#[test]
fn lock_jobs_by_language() {
    let mut c = Config::default();
    assert_eq!(apply_for_foreground(true, false, 0x0804, &c), Some(LockJob::Chinese));
    assert_eq!(apply_for_foreground(true, false, 0x0411, &c), Some(LockJob::Japanese(0x9)));
    assert_eq!(apply_for_foreground(true, false, 0x0409, &c), None);
    assert_eq!(apply_for_foreground(false, false, 0x0804, &c), None);
    assert_eq!(apply_for_foreground(true, true, 0x0804, &c), None);
    c.chinese_lock_enabled = false;
    c.japanese_mode = JapaneseMode::Katakana;
    assert_eq!(apply_for_foreground(true, false, 0x0804, &c), None);
    assert_eq!(apply_for_foreground(true, false, 0x0411, &c), Some(LockJob::Japanese(0xB)));
    c.japanese_lock_enabled = false;
    assert_eq!(apply_for_foreground(true, false, 0x0411, &c), None);
}

#[test]
fn password_class_detection() {
    let mut class = [0u16; 32];
    for (i, u) in w("Edit").into_iter().enumerate() {
        class[i] = u;
    }
    assert!(is_password_class(&class, 4, 0x20));
    assert!(!is_password_class(&class, 4, 0x10));
    assert!(!is_password_class(&class, 0, 0x20));
    assert!(!is_password_class(&class, 5, 0x20));
    let mut upper = [0u16; 32];
    for (i, u) in w("EDIT").into_iter().enumerate() {
        upper[i] = u;
    }
    assert!(is_password_class(&upper, 4, 0x20 | 0x80));
    let mut other = [0u16; 32];
    for (i, u) in w("Edix").into_iter().enumerate() {
        other[i] = u;
    }
    assert!(!is_password_class(&other, 4, 0x20));
}

#[test]
fn password_class_rejects_non_ascii_names() {
    // U+0145 has the low byte of 'E' but is not an ASCII letter.
    let mut class = [0u16; 32];
    class[0] = 0x0145;
    class[1] = 'd' as u16;
    class[2] = 'i' as u16;
    class[3] = 't' as u16;
    assert!(!is_password_class(&class, 4, 0x20));
    // Fullwidth 'Ｅ' (U+FF25) is not ASCII either.
    class[0] = 0xFF25;
    assert!(!is_password_class(&class, 4, 0x20));
    class[0] = 'e' as u16;
    assert!(is_password_class(&class, 4, 0x20));
}

#[test]
fn panel_heights() {
    assert_eq!(panel_h(false), 375);
    assert_eq!(panel_h(true), 522);
    assert_eq!(phys_h(false, 96), 375);
    assert_eq!(phys_h(false, 144), 562);
    assert_eq!(phys_h(true, 50), 522);
    assert_eq!(scale(8, 192), 16);
}

#[test]
fn place_above_tray_icon() {
    let p = place(1000, 1000, 40, 375, 96, None);
    assert_eq!(p, Placement { x: 720, y: 617, width: 320, height: 375 });
    let wa = Edges { left: 0, top: 0, right: 1920, bottom: 1040 };
    let q = place(1900, 1050, 24, 375, 96, Some(wa));
    assert_eq!(q, Placement { x: 1600, y: 665, width: 320, height: 375 });
    // Taskbar on top: the panel is held inside the work area.
    let top = Edges { left: 0, top: 48, right: 1920, bottom: 1080 };
    let r = place(1900, 0, 24, 375, 96, Some(top));
    assert_eq!(r.y, 48);
    // Work area too small: held at its top-left.
    let tiny = Edges { left: 10, top: 20, right: 100, bottom: 100 };
    let s = place(500, 500, 10, 375, 96, Some(tiny));
    assert_eq!((s.x, s.y), (10, 20));
}

#[test]
fn island_frames() {
    let client = Edges { left: 0, top: 0, right: 320, bottom: 400 };
    assert_eq!(
        island_frame(IslandPos::Fill, client, 522),
        Placement { x: 0, y: 0, width: 320, height: 400 }
    );
    assert_eq!(
        island_frame(IslandPos::AnchorBottom, client, 522),
        Placement { x: 0, y: -122, width: 320, height: 522 }
    );
}

#[test]
fn list_indexes() {
    for a in [CapslockAction::CjkUs, CapslockAction::Cycle, CapslockAction::CapsLock] {
        assert_eq!(action_at(action_index(a)), a);
    }
    for m in [JapaneseMode::Hiragana, JapaneseMode::Katakana, JapaneseMode::FullWidthAlnum] {
        assert_eq!(japanese_at(japanese_index(m)), m);
    }
    assert_eq!(action_at(-3), CapslockAction::CjkUs);
    assert_eq!(action_at(7), CapslockAction::CjkUs);
    assert_eq!(japanese_at(-1), JapaneseMode::FullWidthAlnum);
    assert_eq!(japanese_at(9), JapaneseMode::FullWidthAlnum);
}

#[test]
fn threshold_clamped() {
    assert_eq!(threshold_ms(50), 100);
    assert_eq!(threshold_ms(-5), 100);
    assert_eq!(threshold_ms(650), 650);
    assert_eq!(threshold_ms(5000), 2000);
}

fn shown() -> PanelState {
    PanelState { visible: true, anchored: true, hidden_at: None, collapse_start: None }
}

#[test]
fn tray_click_toggles_with_grace() {
    let mut p = shown();
    assert_eq!(toggle_at(&p, 1_000_000), ToggleStep::Hide);
    assert!(!hide_panel(&mut p, 1_000_000));
    assert!(!p.visible);
    assert_eq!(p.hidden_at, Some(1_000_000));
    assert_eq!(toggle_at(&p, 1_000_500), ToggleStep::Stay);
    assert_eq!(toggle_at(&p, 1_300_000), ToggleStep::Show);
    let fresh = PanelState { visible: false, anchored: false, hidden_at: None, collapse_start: None };
    assert_eq!(toggle_at(&fresh, 0), ToggleStep::Show);
}

#[test]
fn expand_and_collapse_animation() {
    let mut p = shown();
    assert_eq!(on_expand_state(&mut p, true, 0), ExpandStep::Expand(false));
    assert_eq!(on_expand_state(&mut p, false, 1_000), ExpandStep::Collapse);
    assert_eq!(p.collapse_start, Some(1_000));
    assert_eq!(on_anim_tick(&mut p, 100_000), AnimStep::Wait);
    assert_eq!(
        on_anim_tick(&mut p, 211_000 + 50_000),
        AnimStep::Frame { progress: 50_000, island: IslandPos::AnchorBottom, done: false }
    );
    assert_eq!(
        on_anim_tick(&mut p, 1_000_000),
        AnimStep::Frame { progress: 167_000, island: IslandPos::Fill, done: true }
    );
    assert_eq!(p.collapse_start, None);
    assert_eq!(on_anim_tick(&mut p, 1_100_000), AnimStep::Idle);
}

#[test]
fn expand_during_collapse_kills_timer() {
    let mut p = shown();
    on_expand_state(&mut p, false, 0);
    assert_eq!(on_expand_state(&mut p, true, 10), ExpandStep::Expand(true));
    assert_eq!(p.collapse_start, None);
}

#[test]
fn expand_ignored_when_hidden() {
    let mut p = PanelState { visible: false, anchored: true, hidden_at: None, collapse_start: None };
    assert_eq!(on_expand_state(&mut p, false, 5), ExpandStep::Ignore);
    assert_eq!(p.collapse_start, None);
}

#[test]
fn anim_stops_without_anchor_and_show_anchors() {
    let mut p = PanelState { visible: true, anchored: false, hidden_at: None, collapse_start: Some(0) };
    assert_eq!(on_anim_tick(&mut p, 1), AnimStep::Stop);
    assert_eq!(p.collapse_start, None);
    p.collapse_start = Some(3);
    assert!(begin_show(&mut p));
    assert!(p.anchored);
    assert!(!stop_collapse(&mut p));
}

#[test]
fn japanese_labels() {
    assert_eq!(japanese_label(JapaneseMode::Hiragana), "日文锁平假名");
    assert_eq!(japanese_label(JapaneseMode::Katakana), "日文锁片假名");
    assert_eq!(japanese_label(JapaneseMode::FullWidthAlnum), "日文锁全角英数");
}

#[test]
fn threshold_text_parsing() {
    assert_eq!(parse_threshold(&w("450")), 450);
    assert_eq!(parse_threshold(&w("  +120\t")), 120);
    assert_eq!(parse_threshold(&w("\u{3000}80\u{00A0}")), 80);
    assert_eq!(parse_threshold(&w("")), 300);
    assert_eq!(parse_threshold(&w("+")), 300);
    assert_eq!(parse_threshold(&w("-5")), 300);
    assert_eq!(parse_threshold(&w("12a")), 300);
    assert_eq!(parse_threshold(&w("1 2")), 300);
    assert_eq!(parse_threshold(&w("18446744073709551615")), u64::MAX);
    assert_eq!(parse_threshold(&w("18446744073709551616")), 300);
    assert_eq!(parse_threshold(&w("007")), 7);
}

#[test]
fn threshold_text_formatting() {
    assert_eq!(format_ms(0), w("0"));
    assert_eq!(format_ms(300), w("300"));
    assert_eq!(format_ms(u64::MAX), w("18446744073709551615"));
    for ms in [0u64, 9, 10, 99, 100, 1234, 2000, u64::MAX] {
        assert_eq!(parse_threshold(&format_ms(ms)), ms);
    }
}

#[test]
fn settings_window_round_trip() {
    let mut c = Config::default();
    c.japanese_mode = JapaneseMode::Katakana;
    c.capslock_short_action = CapslockAction::Cycle;
    c.capslock_longpress_ms = 550;
    c.autostart = true;
    let k = load_config_to_controls(&c);
    assert!(k.katakana && !k.hiragana && !k.full_width);
    assert!(k.cycle && !k.cjk_us && k.capslock);
    assert_eq!(k.longpress_text, w("550"));
    let mut d = Config::default();
    apply_controls(&mut d, &k);
    assert_eq!(d.japanese_mode, JapaneseMode::Katakana);
    assert_eq!(d.capslock_short_action, CapslockAction::Cycle);
    assert_eq!(d.capslock_long_action, CapslockAction::CapsLock);
    assert_eq!(d.capslock_longpress_ms, 550);
    assert!(d.autostart);
    assert_eq!(d.switch_mode(), CapslockSwitchMode::Cycle);
}

#[test]
fn settings_window_turns_capslock_off() {
    let c = Config::default();
    let mut k = load_config_to_controls(&c);
    k.capslock = false;
    k.longpress_text = w("abc");
    let mut d = c.clone();
    apply_controls(&mut d, &k);
    assert!(!d.capslock_active());
    assert_eq!(d.capslock_longpress_ms, 300);
}
