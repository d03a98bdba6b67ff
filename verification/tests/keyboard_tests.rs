use lock_ime::config::{CapslockAction, Config};
use lock_ime::keyboard::{
    dedup_layouts, goal_satisfied, on_caps_longpress, on_keyboard_event, on_switch_tick,
    plan_cycle, plan_toggle, toggle_wants_english, HookAction, SwitchPlan, SwitchTick,
    VK_CAPITAL, WM_KEYDOWN, WM_KEYUP, WM_SYSKEYDOWN, WM_SYSKEYUP,
};
use lock_ime::lang::{pick_non_english_layout, primary_lang, Hkl, LANG_EN_US, LANG_JA, LANG_ZH_CN};
use lock_ime::state::{AppState, SwitchGoal};

fn state() -> AppState {
    AppState::new(Config::default(), 7)
}

const US: Hkl = Hkl(0x0409_0409);
const ZH: Hkl = Hkl(0x0804_0804);
const JA: Hkl = Hkl(0xE001_0411);
const DE: Hkl = Hkl(0x0407_0407);

#[test]
fn new_state_is_idle() {
    let st = state();
    assert_eq!(st.hidden_hwnd, 7);
    assert!(!st.caps_pending && !st.caps_consumed && !st.injecting);
    assert!(st.last_cjk_hkl.is_none());
    assert!(st.switch_goal.is_none());
    assert_eq!(st.switch_remaining, 0);
}

#[test]
fn short_press_runs_short_action() {
    let mut st = state();
    let a = on_keyboard_event(&mut st, 0, VK_CAPITAL, WM_KEYDOWN, false);
    assert_eq!(a, HookAction::SwallowDown(Some(300)));
    assert!(st.caps_pending);
    let b = on_keyboard_event(&mut st, 0, VK_CAPITAL, WM_KEYUP, false);
    assert_eq!(b, HookAction::SwallowUp(Some(CapslockAction::CjkUs)));
    assert!(!st.caps_pending && !st.caps_consumed);
}

#[test]
fn sys_key_messages_count_too() {
    let mut st = state();
    assert_eq!(
        on_keyboard_event(&mut st, 0, VK_CAPITAL, WM_SYSKEYDOWN, false),
        HookAction::SwallowDown(Some(300))
    );
    assert_eq!(
        on_keyboard_event(&mut st, 0, VK_CAPITAL, WM_SYSKEYUP, false),
        HookAction::SwallowUp(Some(CapslockAction::CjkUs))
    );
}

#[test]
fn long_press_runs_long_action_once() {
    let mut st = state();
    on_keyboard_event(&mut st, 0, VK_CAPITAL, WM_KEYDOWN, false);
    assert_eq!(on_caps_longpress(&mut st), Some(CapslockAction::CapsLock));
    assert!(st.caps_consumed);
    assert!(st.injecting);
    assert_eq!(on_caps_longpress(&mut st), None);
    st.injecting = false;
    assert_eq!(
        on_keyboard_event(&mut st, 0, VK_CAPITAL, WM_KEYUP, false),
        HookAction::SwallowUp(None)
    );
    assert!(!st.caps_pending && !st.caps_consumed);
}

#[test]
fn long_press_switch_action_does_not_inject() {
    let mut st = state();
    st.config.capslock_long_action = CapslockAction::Cycle;
    on_keyboard_event(&mut st, 0, VK_CAPITAL, WM_KEYDOWN, false);
    assert_eq!(on_caps_longpress(&mut st), Some(CapslockAction::Cycle));
    assert!(!st.injecting);
}

#[test]
fn auto_repeat_is_swallowed_without_timer() {
    let mut st = state();
    on_keyboard_event(&mut st, 0, VK_CAPITAL, WM_KEYDOWN, false);
    assert_eq!(
        on_keyboard_event(&mut st, 0, VK_CAPITAL, WM_KEYDOWN, false),
        HookAction::SwallowDown(None)
    );
}

#[test]
fn longpress_tick_without_press_does_nothing() {
    let mut st = state();
    assert_eq!(on_caps_longpress(&mut st), None);
    assert!(!st.caps_consumed);
}

#[test]
fn other_keys_and_negative_codes_pass() {
    let mut st = state();
    assert_eq!(on_keyboard_event(&mut st, 0, 0x41, WM_KEYDOWN, false), HookAction::Pass);
    assert_eq!(on_keyboard_event(&mut st, -1, VK_CAPITAL, WM_KEYDOWN, false), HookAction::Pass);
    assert_eq!(on_keyboard_event(&mut st, 0, VK_CAPITAL, 0x0200, false), HookAction::Pass);
    assert!(!st.caps_pending);
}

#[test]
fn disabled_capslock_passes() {
    let mut st = state();
    st.config.capslock_short_action = CapslockAction::CapsLock;
    assert_eq!(
        on_keyboard_event(&mut st, 0, VK_CAPITAL, WM_KEYDOWN, false),
        HookAction::Pass
    );
    assert!(!st.caps_pending);
}

#[test]
fn own_injected_events_pass() {
    let mut st = state();
    st.injecting = true;
    assert_eq!(on_keyboard_event(&mut st, 0, VK_CAPITAL, WM_KEYDOWN, true), HookAction::Pass);
    // A physical press while injecting is still handled.
    assert_eq!(
        on_keyboard_event(&mut st, 0, VK_CAPITAL, WM_KEYDOWN, false),
        HookAction::SwallowDown(Some(300))
    );
}

#[test]
fn short_capslock_action_marks_injecting() {
    let mut st = state();
    st.config.capslock_short_action = CapslockAction::CapsLock;
    st.config.capslock_long_action = CapslockAction::CjkUs;
    on_keyboard_event(&mut st, 0, VK_CAPITAL, WM_KEYDOWN, false);
    assert_eq!(
        on_keyboard_event(&mut st, 0, VK_CAPITAL, WM_KEYUP, false),
        HookAction::SwallowUp(Some(CapslockAction::CapsLock))
    );
    assert!(st.injecting);
}

#[test]
fn primary_lang_low_bits() {
    assert_eq!(primary_lang(US), LANG_EN_US);
    assert_eq!(primary_lang(ZH), LANG_ZH_CN);
    assert_eq!(primary_lang(JA), LANG_JA);
    assert_eq!(primary_lang(Hkl(0xF002_0409)), 0x0409);
}

#[test]
fn pick_prefers_cjk_then_non_english() {
    assert_eq!(pick_non_english_layout(&vec![US, DE, JA, ZH]), Some(JA));
    assert_eq!(pick_non_english_layout(&vec![US, DE]), Some(DE));
    assert_eq!(pick_non_english_layout(&vec![US]), None);
    assert_eq!(pick_non_english_layout(&vec![]), None);
}

#[test]
fn goal_checks() {
    assert!(goal_satisfied(SwitchGoal::ReachLang(LANG_EN_US), US));
    assert!(!goal_satisfied(SwitchGoal::ReachLang(LANG_EN_US), ZH));
    assert!(goal_satisfied(SwitchGoal::LeaveHkl(US), ZH));
    assert!(!goal_satisfied(SwitchGoal::LeaveHkl(US), US));
}

#[test]
fn switch_tick_retries_within_budget() {
    let mut st = state();
    st.begin_switch(SwitchGoal::ReachLang(LANG_JA), 2);
    assert_eq!(st.switch_remaining, 2);
    assert_eq!(on_switch_tick(&mut st, US), SwitchTick::Retry);
    assert_eq!(on_switch_tick(&mut st, ZH), SwitchTick::Retry);
    assert_eq!(on_switch_tick(&mut st, US), SwitchTick::GiveUp);
    assert!(st.switch_goal.is_none());
    assert_eq!(on_switch_tick(&mut st, US), SwitchTick::Idle);
}

#[test]
fn switch_tick_done_when_reached() {
    let mut st = state();
    st.begin_switch(SwitchGoal::ReachLang(LANG_JA), 3);
    assert_eq!(on_switch_tick(&mut st, JA), SwitchTick::Done);
    assert!(st.switch_goal.is_none());
    assert_eq!(st.switch_remaining, 0);
}

#[test]
fn dedup_collapses_runs() {
    assert_eq!(dedup_layouts(&vec![US, US, ZH, ZH, US]), vec![US, ZH, US]);
    assert_eq!(dedup_layouts(&vec![]), Vec::<Hkl>::new());
}

#[test]
fn cycle_moves_to_next_and_wraps() {
    let layouts = vec![US, ZH, JA];
    let p = plan_cycle(ZH, &layouts).unwrap();
    assert_eq!(p, SwitchPlan { goal: SwitchGoal::LeaveHkl(ZH), target: JA, budget: 1 });
    assert_eq!(plan_cycle(JA, &layouts).unwrap().target, US);
    assert_eq!(plan_cycle(DE, &layouts).unwrap().target, US);
}

#[test]
fn cycle_needs_two_layouts() {
    assert_eq!(plan_cycle(US, &vec![US, US]), None);
    assert_eq!(plan_cycle(US, &vec![]), None);
}

#[test]
fn toggle_from_cjk_goes_english_and_remembers() {
    let mut st = state();
    assert!(toggle_wants_english(ZH));
    let p = plan_toggle(&mut st, ZH, Some(US), &vec![US, ZH, JA]).unwrap();
    assert_eq!(p.target, US);
    assert_eq!(p.goal, SwitchGoal::ReachLang(LANG_EN_US));
    assert_eq!(p.budget, 3);
    assert_eq!(st.last_cjk_hkl, Some(ZH));
    // Back from English returns to the remembered layout.
    assert!(!toggle_wants_english(US));
    let q = plan_toggle(&mut st, US, None, &vec![US, ZH, JA]).unwrap();
    assert_eq!(q.target, ZH);
    assert_eq!(q.goal, SwitchGoal::ReachLang(LANG_ZH_CN));
}

#[test]
fn toggle_from_english_without_memory_picks_cjk() {
    let mut st = state();
    let p = plan_toggle(&mut st, US, None, &vec![US, DE, JA]).unwrap();
    assert_eq!(p.target, JA);
    assert_eq!(st.last_cjk_hkl, None);
}

#[test]
fn toggle_nothing_to_do() {
    let mut st = state();
    assert_eq!(plan_toggle(&mut st, US, None, &vec![US]), None);
    assert_eq!(plan_toggle(&mut st, ZH, None, &vec![US, ZH]), None);
    assert_eq!(st.last_cjk_hkl, Some(ZH));
}

#[test]
fn toggle_budget_clamped() {
    let mut st = state();
    let many = vec![US, ZH, JA, DE, US, ZH, JA, DE, US, ZH];
    assert_eq!(plan_toggle(&mut st, ZH, Some(US), &many).unwrap().budget, 8);
    let mut st2 = state();
    assert_eq!(plan_toggle(&mut st2, ZH, Some(US), &vec![]).unwrap().budget, 1);
}

#[test]
fn synthesized_capslock_is_let_through() {
    let mut st = state();
    on_keyboard_event(&mut st, 0, VK_CAPITAL, WM_KEYDOWN, false);
    assert_eq!(on_caps_longpress(&mut st), Some(CapslockAction::CapsLock));
    assert_eq!(on_keyboard_event(&mut st, 0, VK_CAPITAL, WM_KEYDOWN, true), HookAction::Pass);
    assert_eq!(on_keyboard_event(&mut st, 0, VK_CAPITAL, WM_KEYUP, true), HookAction::Pass);
    assert!(st.caps_pending && st.caps_consumed);
}
