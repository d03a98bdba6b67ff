//! CapsLock: a short press switches the input layout, a long press does the
//! long-press action (a real CapsLock by default).
//!
//! The low-level keyboard hook, the long-press timer and the layout-switch
//! check timer hand their events to the functions here; each returns what the
//! caller must do (let the key through or swallow it, start or stop a timer,
//! switch layouts, synthesize keys).

use vstd::prelude::*;
use crate::config::{CapslockAction, Config};
use crate::lang::{
    Hkl, LANG_EN_US, lang_of, primary_lang, pick_non_english_layout, spec_pick_non_english,
};
use crate::state::{AppState, SwitchGoal};

verus! {

/// Virtual-key code of CapsLock.
pub const VK_CAPITAL: u32 = 0x14;

/// Keyboard messages the hook receives.
pub const WM_KEYDOWN: u32 = 0x0100;
pub const WM_KEYUP: u32 = 0x0101;
pub const WM_SYSKEYDOWN: u32 = 0x0104;
pub const WM_SYSKEYUP: u32 = 0x0105;

/// How long after a direct switch or a fallback key press the foreground layout
/// is read back, in milliseconds.
pub const SWITCH_VERIFY_MS: u32 = 30;

/// What the keyboard hook does with one event.
#[derive(Debug, Clone, Copy, PartialEq, Eq, Structural)]
pub enum HookAction {
    /// Hand the event on to the next hook (system behaviour).
    Pass,
    /// Swallow the CapsLock press; when a duration is given, start the
    /// long-press timer with it (absent for auto-repeat).
    SwallowDown(Option<u64>),
    /// Swallow the CapsLock release and stop the long-press timer; when an
    /// action is given the press was short and that action is carried out.
    SwallowUp(Option<CapslockAction>),
}

/// What one tick of the layout-switch check comes to.
#[derive(Debug, Clone, Copy, PartialEq, Eq, Structural)]
pub enum SwitchTick {
    /// No switch is in progress.
    Idle,
    /// The switch has reached its goal and is finished.
    Done,
    /// Not there yet: press Win+Space once more and check again.
    Retry,
    /// Not there and no presses left: the switch is abandoned.
    GiveUp,
}

/// A layout switch to start: post the target layout to the foreground window,
/// then check for the goal, pressing Win+Space at most `budget` times.
#[derive(Debug, Clone, Copy, PartialEq, Eq, Structural)]
pub struct SwitchPlan {
    pub goal: SwitchGoal,
    pub target: Hkl,
    pub budget: u8,
}

pub open spec fn is_key_down(msg: u32) -> bool {
    msg == WM_KEYDOWN || msg == WM_SYSKEYDOWN
}

pub open spec fn is_key_up(msg: u32) -> bool {
    msg == WM_KEYUP || msg == WM_SYSKEYUP
}

/// Whether the hook lets an event through untouched: a negative hook code, a
/// key other than CapsLock, CapsLock handling switched off, or one of the
/// program's own synthesized events.
pub open spec fn passes_through(st: AppState, code: i32, vk: u32, injected: bool) -> bool {
    code < 0 || vk != VK_CAPITAL || !st.config.spec_capslock_active() || (injected
        && st.injecting)
}

/// The state after, and the action for, one keyboard hook event.
pub open spec fn spec_key_event(st: AppState, code: i32, vk: u32, msg: u32, injected: bool) -> (
    AppState,
    HookAction,
) {
    if passes_through(st, code, vk, injected) {
        (st, HookAction::Pass)
    } else if is_key_down(msg) {
        if !st.caps_pending {
            (
                AppState { caps_pending: true, caps_consumed: false, ..st },
                HookAction::SwallowDown(Some(st.config.capslock_longpress_ms)),
            )
        } else {
            (st, HookAction::SwallowDown(None))
        }
    } else if is_key_up(msg) {
        let short = st.caps_pending && !st.caps_consumed;
        let action = st.config.capslock_short_action;
        (
            AppState {
                caps_pending: false,
                caps_consumed: false,
                injecting: if short && action == CapslockAction::CapsLock {
                    true
                } else {
                    st.injecting
                },
                ..st
            },
            HookAction::SwallowUp(
                if short {
                    Some(action)
                } else {
                    None
                },
            ),
        )
    } else {
        (st, HookAction::Pass)
    }
}

/// The state after, and the action for, the long-press timer firing.
pub open spec fn spec_longpress(st: AppState) -> (AppState, Option<CapslockAction>) {
    if st.caps_pending && !st.caps_consumed {
        let action = st.config.capslock_long_action;
        (
            AppState {
                caps_consumed: true,
                injecting: if action == CapslockAction::CapsLock {
                    true
                } else {
                    st.injecting
                },
                ..st
            },
            Some(action),
        )
    } else {
        (st, None)
    }
}

/// Decides one low-level keyboard hook event.
///
/// Only CapsLock is handled, and only while the CapsLock feature is on and the
/// event is not one the program synthesized itself. A press is swallowed so
/// the caps state does not flip at once; the first press of a series starts
/// the long-press timer, auto-repeat is ignored. The release is swallowed too,
/// and if the press was not taken as long, the short-press action is returned.
pub fn on_keyboard_event(st: &mut AppState, code: i32, vk: u32, msg: u32, injected: bool) -> (r:
    HookAction)
    ensures
        (*final(st), r) == spec_key_event(*old(st), code, vk, msg, injected),
{
    if code < 0 || vk != VK_CAPITAL {
        return HookAction::Pass;
    }
    let enabled = st.config.capslock_active();
    if !enabled || (injected && st.injecting) {
        return HookAction::Pass;
    }
    let is_down = msg == WM_KEYDOWN || msg == WM_SYSKEYDOWN;
    let is_up = msg == WM_KEYUP || msg == WM_SYSKEYUP;
    if is_down {
        if !st.caps_pending {
            st.caps_pending = true;
            st.caps_consumed = false;
            return HookAction::SwallowDown(Some(st.config.capslock_longpress_ms));
        } else {
            return HookAction::SwallowDown(None);
        }
    }
    if is_up {
        let short_press = st.caps_pending && !st.caps_consumed;
        st.caps_pending = false;
        st.caps_consumed = false;
        if short_press {
            let action = st.config.capslock_short_action;
            if action == CapslockAction::CapsLock {
                st.injecting = true;
            }
            return HookAction::SwallowUp(Some(action));
        } else {
            return HookAction::SwallowUp(None);
        }
    }
    HookAction::Pass
}

/// The long-press timer fired: if the press is still pending and not yet taken
/// as long, it is taken as long now and the long-press action is returned. A
/// real CapsLock is about to be synthesized then, so the hook is told to let
/// the injected events through.
pub fn on_caps_longpress(st: &mut AppState) -> (r: Option<CapslockAction>)
    ensures
        (*final(st), r) == spec_longpress(*old(st)),
{
    if st.caps_pending && !st.caps_consumed {
        st.caps_consumed = true;
        let action = st.config.capslock_long_action;
        if action == CapslockAction::CapsLock {
            st.injecting = true;
        }
        Some(action)
    } else {
        None
    }
}

/// Whether a layout switch has reached its goal, given the foreground layout.
pub open spec fn spec_goal_satisfied(goal: SwitchGoal, current: Hkl) -> bool {
    match goal {
        SwitchGoal::ReachLang(l) => lang_of(current) == l,
        SwitchGoal::LeaveHkl(orig) => current != orig,
    }
}

/// Whether a layout switch has reached its goal, given the foreground layout.
pub fn goal_satisfied(goal: SwitchGoal, current: Hkl) -> (r: bool)
    ensures
        r == spec_goal_satisfied(goal, current),
{
    match goal {
        SwitchGoal::ReachLang(l) => primary_lang(current) == l,
        SwitchGoal::LeaveHkl(orig) => current.0 != orig.0,
    }
}

impl AppState {
    /// Records a switch that was just started: its goal and how many Win+Space
    /// presses the check may still send.
    pub fn begin_switch(&mut self, goal: SwitchGoal, budget: u8)
        ensures
            *final(self) == (AppState {
                switch_goal: Some(goal),
                switch_remaining: budget,
                ..*old(self)
            }),
    {
        self.switch_goal = Some(goal);
        self.switch_remaining = budget;
    }
}

/// The state after, and the outcome of, one check of the switch in progress.
pub open spec fn spec_switch_tick(st: AppState, current: Hkl) -> (AppState, SwitchTick) {
    match st.switch_goal {
        None => (st, SwitchTick::Idle),
        Some(goal) => if spec_goal_satisfied(goal, current) {
            (AppState { switch_goal: None, switch_remaining: 0, ..st }, SwitchTick::Done)
        } else if st.switch_remaining > 0 {
            (
                AppState { switch_remaining: (st.switch_remaining - 1) as u8, ..st },
                SwitchTick::Retry,
            )
        } else {
            (AppState { switch_goal: None, ..st }, SwitchTick::GiveUp)
        },
    }
}

/// One check of the switch in progress (timer tick), given the foreground
/// layout read back: finished when the goal is reached; otherwise Win+Space is
/// pressed once more while presses are left, and the switch is given up when
/// none are, so the check never loops for ever.
pub fn on_switch_tick(st: &mut AppState, current: Hkl) -> (r: SwitchTick)
    ensures
        (*final(st), r) == spec_switch_tick(*old(st), current),
{
    let goal = match st.switch_goal {
        Some(g) => g,
        None => {
            return SwitchTick::Idle;
        },
    };
    if goal_satisfied(goal, current) {
        st.switch_goal = None;
        st.switch_remaining = 0;
        return SwitchTick::Done;
    }
    if st.switch_remaining > 0 {
        st.switch_remaining = st.switch_remaining - 1;
        SwitchTick::Retry
    } else {
        st.switch_goal = None;
        SwitchTick::GiveUp
    }
}

/// The layouts with runs of equal neighbours collapsed to one (as `Vec::dedup`).
pub open spec fn dedup(s: Seq<Hkl>) -> Seq<Hkl>
    decreases s.len(),
{
    if s.len() <= 1 {
        s
    } else if s[s.len() - 1] == s[s.len() - 2] {
        dedup(s.drop_last())
    } else {
        dedup(s.drop_last()).push(s[s.len() - 1])
    }
}

/// Removes consecutive repeated layouts.
pub fn dedup_layouts(layouts: &Vec<Hkl>) -> (r: Vec<Hkl>)
    ensures
        r@ == dedup(layouts@),
{
    let ghost s = layouts@;
    let mut out: Vec<Hkl> = Vec::new();
    let n = layouts.len();
    let mut i: usize = 0;
    assert(s.take(0) =~= Seq::<Hkl>::empty());
    while i < n
        invariant
            n == s.len(),
            s == layouts@,
            i <= n,
            out@ == dedup(s.take(i as int)),
        decreases n - i,
    {
        let h = layouts[i];
        assert(s.take(i + 1).drop_last() =~= s.take(i as int));
        if i == 0 {
            out.push(h);
            assert(s.take(1) =~= seq![h]);
        } else if layouts[i - 1].0 != h.0 {
            out.push(h);
        }
        i = i + 1;
    }
    assert(s.take(n as int) =~= s);
    out
}

/// The layout a cycling switch goes to: the one after the first occurrence of
/// the current layout (wrapping round), or the first one when the current layout
/// is not in the list.
pub open spec fn cycle_target(d: Seq<Hkl>, current: Hkl) -> Hkl {
    if exists|i: int| 0 <= i < d.len() && d[i] == current {
        let i = choose|i: int|
            0 <= i < d.len() && d[i] == current && forall|j: int| 0 <= j < i ==> d[j] != current;
        d[(i + 1) % (d.len() as int)]
    } else {
        d[0]
    }
}

/// The switch a cycling press starts, if any: none unless at least two distinct
/// neighbouring layouts are installed; otherwise move to the next layout and
/// count the switch done as soon as the layout changes, pressing Win+Space at
/// most once.
pub open spec fn spec_plan_cycle(current: Hkl, layouts: Seq<Hkl>) -> Option<SwitchPlan> {
    let d = dedup(layouts);
    if d.len() < 2 {
        None
    } else {
        Some(
            SwitchPlan { goal: SwitchGoal::LeaveHkl(current), target: cycle_target(d, current), budget: 1 },
        )
    }
}

/// Plans a cycling switch (like Win+Space) from the foreground layout and the
/// installed layouts.
pub fn plan_cycle(current: Hkl, layouts: &Vec<Hkl>) -> (r: Option<SwitchPlan>)
    ensures
        r == spec_plan_cycle(current, layouts@),
{
    let d = dedup_layouts(layouts);
    let n = d.len();
    if n < 2 {
        return None;
    }
    let mut i: usize = 0;
    while i < n
        invariant
            n == d@.len(),
            d@ == dedup(layouts@),
            n >= 2,
            i <= n,
            forall|j: int| 0 <= j < i ==> d@[j] != current,
        decreases n - i,
    {
        if d[i].0 == current.0 {
            let next = d[(i + 1) % n];
            proof {
                let ii = i as int;
                assert(0 <= ii < d@.len() && d@[ii] == current);
                let k = choose|k: int|
                    0 <= k < d@.len() && d@[k] == current && forall|j: int|
                        0 <= j < k ==> d@[j] != current;
                assert(0 <= ii < d@.len() && d@[ii] == current && forall|j: int|
                    0 <= j < ii ==> d@[j] != current);
                assert(k == ii) by {
                    if k < ii {
                        assert(d@[k] != current);
                    } else if k > ii {
                        assert(d@[ii] != current);
                    }
                }
                assert(cycle_target(d@, current) == d@[(ii + 1) % (n as int)]);
            }
            return Some(SwitchPlan { goal: SwitchGoal::LeaveHkl(current), target: next, budget: 1 });
        }
        i = i + 1;
    }
    Some(SwitchPlan { goal: SwitchGoal::LeaveHkl(current), target: d[0], budget: 1 })
}

/// Whether the two-state switch needs the English (US) layout: it does when
/// the foreground layout is not English.
pub fn toggle_wants_english(current: Hkl) -> (r: bool)
    ensures
        r == (lang_of(current) != LANG_EN_US),
{
    primary_lang(current) != LANG_EN_US
}

/// The Win+Space budget of the two-state switch: the number of installed
/// layouts, at least 1 and at most 8.
pub open spec fn toggle_budget(n: nat) -> u8 {
    if n < 1 {
        1
    } else if n > 8 {
        8
    } else {
        n as u8
    }
}

/// The state after, and the switch started by, a two-state press.
pub open spec fn spec_plan_toggle(
    st: AppState,
    current: Hkl,
    english: Option<Hkl>,
    installed: Seq<Hkl>,
) -> (AppState, Option<SwitchPlan>) {
    let cur_lang = lang_of(current);
    let (st2, target) = if cur_lang == LANG_EN_US {
        (
            st,
            match st.last_cjk_hkl {
                Some(h) => Some(h),
                None => spec_pick_non_english(installed),
            },
        )
    } else {
        (AppState { last_cjk_hkl: Some(current), ..st }, english)
    };
    match target {
        None => (st2, None),
        Some(t) => if lang_of(t) == cur_lang {
            (st2, None)
        } else {
            (
                st2,
                Some(
                    SwitchPlan {
                        goal: SwitchGoal::ReachLang(lang_of(t)),
                        target: t,
                        budget: toggle_budget(installed.len()),
                    },
                ),
            )
        },
    }
}

/// Plans the two-state switch between English (US) and the last CJK layout.
///
/// From English it goes back to the CJK layout left last, or, if there is
/// none, to an installed non-English layout (CJK first). From any other layout
/// it remembers that layout and goes to English (`english`, the loaded US
/// layout, asked for only when `toggle_wants_english` says so). Nothing is
/// started when there is no target or the target has the current language.
/// The switch is done when the target language is reached, with as many
/// Win+Space presses as layouts are installed (1 to 8).
pub fn plan_toggle(st: &mut AppState, current: Hkl, english: Option<Hkl>, installed: &Vec<Hkl>) -> (r:
    Option<SwitchPlan>)
    ensures
        (*final(st), r) == spec_plan_toggle(*old(st), current, english, installed@),
{
    let current_lang = primary_lang(current);
    let target = if current_lang == LANG_EN_US {
        match st.last_cjk_hkl {
            Some(h) => Some(h),
            None => pick_non_english_layout(installed),
        }
    } else {
        st.last_cjk_hkl = Some(current);
        english
    };
    let target = match target {
        Some(t) => t,
        None => {
            return None;
        },
    };
    let target_lang = primary_lang(target);
    if target_lang == current_lang {
        return None;
    }
    let n = installed.len();
    let budget: u8 = if n < 1 {
        1
    } else if n > 8 {
        8
    } else {
        n as u8
    };
    Some(SwitchPlan { goal: SwitchGoal::ReachLang(target_lang), target, budget })
}

/// Every keyboard event, long-press tick, switch check and two-state plan keeps
/// the CapsLock judgement consistent: a press taken as long is still pending.
pub proof fn lemma_caps_inv_kept(
    st: AppState,
    code: i32,
    vk: u32,
    msg: u32,
    injected: bool,
    current: Hkl,
    english: Option<Hkl>,
    installed: Seq<Hkl>,
)
    requires
        st.caps_inv(),
    ensures
        spec_key_event(st, code, vk, msg, injected).0.caps_inv(),
        spec_longpress(st).0.caps_inv(),
        spec_switch_tick(st, current).0.caps_inv(),
        spec_plan_toggle(st, current, english, installed).0.caps_inv(),
{
}

/// With CapsLock handling off (both presses a real CapsLock), every event is
/// handed on and nothing changes; the same holds for the program's own
/// injected events while it is injecting.
pub proof fn lemma_pass_through(st: AppState, code: i32, vk: u32, msg: u32, injected: bool)
    requires
        !st.config.spec_capslock_active() || (injected && st.injecting) || vk != VK_CAPITAL,
    ensures
        spec_key_event(st, code, vk, msg, injected) == (st, HookAction::Pass),
{
}

/// A short press: CapsLock down then up with no long-press tick between. The
/// press starts the long-press timer, the release runs the short-press action
/// once, and the judgement is back at rest.
pub proof fn lemma_short_press(st: AppState, down: u32, up: u32)
    requires
        st.config.spec_capslock_active(),
        !st.caps_pending,
        is_key_down(down),
        is_key_up(up),
    ensures
        ({
            let (s1, a1) = spec_key_event(st, 0, VK_CAPITAL, down, false);
            let (s2, a2) = spec_key_event(s1, 0, VK_CAPITAL, up, false);
            &&& a1 == HookAction::SwallowDown(Some(st.config.capslock_longpress_ms))
            &&& a2 == HookAction::SwallowUp(Some(st.config.capslock_short_action))
            &&& !s2.caps_pending && !s2.caps_consumed
            &&& s2.config == st.config
        }),
{
}

/// A long press: CapsLock down, the long-press timer fires, then up. The long
/// action runs once, at the tick; the release runs nothing; the judgement is
/// back at rest.
pub proof fn lemma_long_press(st: AppState, down: u32, up: u32)
    requires
        st.config.spec_capslock_active(),
        !st.caps_pending,
        is_key_down(down),
        is_key_up(up),
    ensures
        ({
            let (s1, a1) = spec_key_event(st, 0, VK_CAPITAL, down, false);
            let (s2, a2) = spec_longpress(s1);
            let (s3, a3) = spec_key_event(s2, 0, VK_CAPITAL, up, false);
            &&& a1 == HookAction::SwallowDown(Some(st.config.capslock_longpress_ms))
            &&& a2 == Some(st.config.capslock_long_action)
            &&& a3 == HookAction::SwallowUp(None)
            &&& !s3.caps_pending && !s3.caps_consumed
        }),
{
}

/// When a press ends in a real CapsLock (short or long), the hook lets the
/// synthesized CapsLock events through instead of judging them again.
pub proof fn lemma_synthesized_capslock_passes(st: AppState, up: u32, msg: u32)
    requires
        st.config.spec_capslock_active(),
        is_key_up(up),
    ensures
        spec_key_event(st, 0, VK_CAPITAL, up, false).1 == HookAction::SwallowUp(
            Some(CapslockAction::CapsLock),
        ) ==> ({
            let s = spec_key_event(st, 0, VK_CAPITAL, up, false).0;
            spec_key_event(s, 0, VK_CAPITAL, msg, true) == (s, HookAction::Pass)
        }),
        spec_longpress(st).1 == Some(CapslockAction::CapsLock) ==> ({
            let s = spec_longpress(st).0;
            spec_key_event(s, 0, VK_CAPITAL, msg, true) == (s, HookAction::Pass)
        }),
{
}

/// Auto-repeat of a held CapsLock is swallowed without restarting the timer,
/// and a second long-press tick for the same press does nothing.
pub proof fn lemma_repeat_ignored(st: AppState, down: u32)
    requires
        st.config.spec_capslock_active(),
        st.caps_pending,
        !st.injecting,
        is_key_down(down),
    ensures
        spec_key_event(st, 0, VK_CAPITAL, down, false) == (st, HookAction::SwallowDown(None)),
        st.caps_consumed ==> spec_longpress(st) == (st, None::<CapslockAction>),
{
}

/// The number of Win+Space presses that a run of switch checks asks for, given
/// the foreground layout read back at each check.
pub open spec fn retries(st: AppState, seen: Seq<Hkl>) -> nat
    decreases seen.len(),
{
    if seen.len() == 0 {
        0
    } else {
        let (st2, tick) = spec_switch_tick(st, seen[0]);
        (if tick == SwitchTick::Retry {
            1nat
        } else {
            0nat
        }) + retries(st2, seen.drop_first())
    }
}

/// However the foreground layout behaves, a switch started with a budget of
/// `budget` presses Win+Space at most `budget` times.
pub proof fn lemma_switch_retries_bounded(st: AppState, goal: SwitchGoal, budget: u8, seen: Seq<Hkl>)
    ensures
        retries(AppState { switch_goal: Some(goal), switch_remaining: budget, ..st }, seen)
            <= budget,
    decreases seen.len(),
{
    lemma_retries_bounded(AppState { switch_goal: Some(goal), switch_remaining: budget, ..st }, seen);
}

proof fn lemma_retries_bounded(st: AppState, seen: Seq<Hkl>)
    ensures
        retries(st, seen) <= (if st.switch_goal is Some {
            st.switch_remaining as nat
        } else {
            0nat
        }),
    decreases seen.len(),
{
    if seen.len() > 0 {
        let (st2, tick) = spec_switch_tick(st, seen[0]);
        lemma_retries_bounded(st2, seen.drop_first());
    }
}

/// Collapsing runs leaves no two equal neighbours.
proof fn lemma_dedup_no_adjacent(s: Seq<Hkl>)
    ensures
        forall|j: int| 0 <= j < dedup(s).len() - 1 ==> #[trigger] dedup(s)[j] != dedup(s)[j + 1],
        s.len() > 0 ==> dedup(s).len() > 0 && dedup(s)[dedup(s).len() - 1] == s[s.len() - 1],
    decreases s.len(),
{
    if s.len() > 1 {
        lemma_dedup_no_adjacent(s.drop_last());
    }
}

/// A cycling switch never targets the layout it starts from.
pub proof fn lemma_cycle_moves(current: Hkl, layouts: Seq<Hkl>)
    ensures
        spec_plan_cycle(current, layouts) matches Some(p) ==> p.target != current && p.budget == 1,
{
    lemma_dedup_no_adjacent(layouts);
    let d = dedup(layouts);
    if d.len() >= 2 {
        lemma_cycle_target_moves(d, current);
    }
}

/// In a list of at least two layouts with no equal neighbours, the cycling
/// target differs from the current layout.
proof fn lemma_cycle_target_moves(d: Seq<Hkl>, current: Hkl)
    requires
        d.len() >= 2,
        forall|j: int| 0 <= j < d.len() - 1 ==> #[trigger] d[j] != d[j + 1],
    ensures
        cycle_target(d, current) != current,
{
    if exists|i: int| 0 <= i < d.len() && d[i] == current {
        let w = choose|i: int| 0 <= i < d.len() && d[i] == current;
        lemma_first_index(d, current, w);
        let i = choose|i: int|
            0 <= i < d.len() && d[i] == current && forall|j: int| 0 <= j < i ==> d[j] != current;
        let n = d.len() as int;
        assert(cycle_target(d, current) == d[(i + 1) % n]);
        if i + 1 < n {
            vstd::arithmetic::div_mod::lemma_small_mod((i + 1) as nat, n as nat);
            assert(d[i] != d[i + 1]);
        } else {
            vstd::arithmetic::div_mod::lemma_mod_self_0(n);
            assert(d[0] != current);
        }
    }
}

/// If a value occurs at `w`, it has a first occurrence.
proof fn lemma_first_index(d: Seq<Hkl>, x: Hkl, w: int)
    requires
        0 <= w < d.len(),
        d[w] == x,
    ensures
        exists|i: int| 0 <= i < d.len() && d[i] == x && forall|j: int| 0 <= j < i ==> d[j] != x,
    decreases w,
{
    if exists|j: int| 0 <= j < w && d[j] == x {
        let j = choose|j: int| 0 <= j < w && d[j] == x;
        lemma_first_index(d, x, j);
    } else {
        assert(0 <= w < d.len() && d[w] == x && forall|j: int| 0 <= j < w ==> d[j] != x);
    }
}

/// Every layout of the collapsed list is one of the original layouts, and a
/// non-empty list collapses to a non-empty one no longer than itself.
proof fn lemma_dedup_members(s: Seq<Hkl>)
    ensures
        dedup(s).len() <= s.len(),
        s.len() > 0 ==> dedup(s).len() > 0,
        forall|k: int| 0 <= k < dedup(s).len() ==> s.contains(#[trigger] dedup(s)[k]),
    decreases s.len(),
{
    if s.len() > 1 {
        let t = s.drop_last();
        lemma_dedup_members(t);
        assert forall|k: int| 0 <= k < dedup(s).len() implies s.contains(#[trigger] dedup(s)[k]) by {
            if k < dedup(t).len() {
                let x = dedup(t)[k];
                assert(t.contains(x));
                let w = choose|w: int| 0 <= w < t.len() && t[w] == x;
                assert(s[w] == x);
            } else {
                assert(dedup(s)[k] == s[s.len() - 1]);
            }
        }
    } else if s.len() == 1 {
        assert(dedup(s)[0] == s[0]);
    }
}

/// A list of layouts all equal collapses to at most one layout, and one that
/// collapses to at most one has all its layouts equal.
proof fn lemma_dedup_short_iff_all_equal(s: Seq<Hkl>)
    ensures
        dedup(s).len() < 2 <==> (forall|i: int| 0 <= i < s.len() ==> #[trigger] s[i] == s[0]),
    decreases s.len(),
{
    if s.len() > 1 {
        let t = s.drop_last();
        lemma_dedup_short_iff_all_equal(t);
        lemma_dedup_members(t);
        if forall|i: int| 0 <= i < s.len() ==> #[trigger] s[i] == s[0] {
            assert forall|i: int| 0 <= i < t.len() implies #[trigger] t[i] == t[0] by {
                assert(s[i] == s[0]);
            }
            assert(s[s.len() - 1] == s[0] && s[s.len() - 2] == s[0]);
        } else {
            let j = choose|j: int| 0 <= j < s.len() && #[trigger] s[j] != s[0];
            if s[s.len() - 1] == s[s.len() - 2] {
                if j == s.len() - 1 {
                    assert(t[t.len() - 1] != t[0]);
                } else {
                    assert(t[j] != t[0]);
                }
            }
        }
    }
}

/// A list without equal neighbours is left as it is.
proof fn lemma_dedup_distinct_neighbours(s: Seq<Hkl>)
    requires
        forall|j: int| 0 <= j < s.len() - 1 ==> #[trigger] s[j] != s[j + 1],
    ensures
        dedup(s) == s,
    decreases s.len(),
{
    if s.len() > 1 {
        let t = s.drop_last();
        assert forall|j: int| 0 <= j < t.len() - 1 implies #[trigger] t[j] != t[j + 1] by {
            assert(s[j] != s[j + 1]);
        }
        lemma_dedup_distinct_neighbours(t);
        assert(s[s.len() - 2] != s[s.len() - 1]);
        assert(t.push(s[s.len() - 1]) =~= s);
    }
}

/// A cycling press starts a switch exactly when at least two different layouts
/// are installed. The switch then leaves the current layout for another
/// installed layout, and counts as done once the layout changes, with at most
/// one Win+Space press.
pub proof fn lemma_cycle_plan(current: Hkl, layouts: Seq<Hkl>)
    ensures
        (exists|i: int, j: int|
            0 <= i < layouts.len() && 0 <= j < layouts.len() && #[trigger] layouts[i]
                != #[trigger] layouts[j]) <==> spec_plan_cycle(current, layouts) is Some,
        spec_plan_cycle(current, layouts) matches Some(p) ==> p.goal == SwitchGoal::LeaveHkl(
            current,
        ) && p.target != current && layouts.contains(p.target) && p.budget == 1,
{
    lemma_dedup_short_iff_all_equal(layouts);
    lemma_dedup_members(layouts);
    lemma_cycle_moves(current, layouts);
    let d = dedup(layouts);
    if exists|i: int, j: int|
        0 <= i < layouts.len() && 0 <= j < layouts.len() && #[trigger] layouts[i]
            != #[trigger] layouts[j] {
        let (i, j) = choose|i: int, j: int|
            0 <= i < layouts.len() && 0 <= j < layouts.len() && #[trigger] layouts[i]
                != #[trigger] layouts[j];
        assert(layouts[i] != layouts[0] || layouts[j] != layouts[0]);
    } else {
        assert forall|i: int| 0 <= i < layouts.len() implies #[trigger] layouts[i] == layouts[0] by {
            assert(layouts[i] == layouts[0]);
        }
    }
    if d.len() >= 2 {
        let target = cycle_target(d, current);
        if exists|i: int| 0 <= i < d.len() && d[i] == current {
            let w = choose|i: int| 0 <= i < d.len() && d[i] == current;
            lemma_first_index(d, current, w);
            let i = choose|i: int|
                0 <= i < d.len() && d[i] == current && forall|j: int| 0 <= j < i ==> d[j] != current;
            let k = (i + 1) % (d.len() as int);
            vstd::arithmetic::div_mod::lemma_mod_bound(i + 1, d.len() as int);
            assert(layouts.contains(d[k]));
        } else {
            assert(layouts.contains(d[0]));
        }
    }
}

/// With distinct installed layouts, a cycling press goes to the layout after
/// the current one, wrapping from the last to the first, and to the first when
/// the current layout is not installed.
pub proof fn lemma_cycle_next(current: Hkl, layouts: Seq<Hkl>, i: int)
    requires
        layouts.no_duplicates(),
        layouts.len() >= 2,
    ensures
        0 <= i < layouts.len() && layouts[i] == current ==> spec_plan_cycle(current, layouts)
            == Some(
            SwitchPlan {
                goal: SwitchGoal::LeaveHkl(current),
                target: layouts[(i + 1) % (layouts.len() as int)],
                budget: 1,
            },
        ),
        !layouts.contains(current) ==> spec_plan_cycle(current, layouts) == Some(
            SwitchPlan { goal: SwitchGoal::LeaveHkl(current), target: layouts[0], budget: 1 },
        ),
{
    assert forall|j: int| 0 <= j < layouts.len() - 1 implies #[trigger] layouts[j] != layouts[j
        + 1] by {
        assert(layouts[j] != layouts[j + 1]);
    }
    lemma_dedup_distinct_neighbours(layouts);
    if 0 <= i < layouts.len() && layouts[i] == current {
        assert(exists|k: int| 0 <= k < layouts.len() && layouts[k] == current);
        let k = choose|k: int|
            0 <= k < layouts.len() && layouts[k] == current && forall|j: int|
                0 <= j < k ==> layouts[j] != current;
        lemma_first_index(layouts, current, i);
        assert(k == i);
    }
}

/// One check of a switch in progress: with no switch it does nothing; when the
/// foreground layout has reached the goal (the target language for a two-state
/// switch, any other layout for a cycling one) the switch is finished and
/// cleared; otherwise it asks for one more Win+Space press while presses are
/// left, using one up, and gives the switch up when none are. Nothing else in
/// the state changes.
pub proof fn lemma_switch_tick_rules(st: AppState, current: Hkl)
    ensures
        ({
            let (s2, tick) = spec_switch_tick(st, current);
            let reached = match st.switch_goal {
                Some(SwitchGoal::ReachLang(l)) => current.0 % 0x10000 == l as int,
                Some(SwitchGoal::LeaveHkl(h)) => current != h,
                None => false,
            };
            &&& st.switch_goal is None ==> s2 == st && tick == SwitchTick::Idle
            &&& st.switch_goal is Some && reached ==> tick == SwitchTick::Done && s2.switch_goal is None
                && s2.switch_remaining == 0
            &&& st.switch_goal is Some && !reached && st.switch_remaining > 0 ==> tick
                == SwitchTick::Retry && s2.switch_goal == st.switch_goal && s2.switch_remaining
                == st.switch_remaining - 1
            &&& st.switch_goal is Some && !reached && st.switch_remaining == 0 ==> tick
                == SwitchTick::GiveUp && s2.switch_goal is None
            &&& s2.config == st.config && s2.caps_pending == st.caps_pending && s2.caps_consumed
                == st.caps_consumed && s2.injecting == st.injecting && s2.last_cjk_hkl
                == st.last_cjk_hkl
        }),
{
}

/// The two-state press: from a non-English layout it remembers that layout and
/// goes to the English layout it was given (nothing without one); from an
/// English layout it goes back to the remembered layout. A started switch always
/// targets another language, waits for the target's language, and may press
/// Win+Space as many times as layouts are installed, at least once and at most
/// eight times. Only the remembered layout changes in the state.
pub proof fn lemma_toggle_rules(st: AppState, current: Hkl, english: Option<Hkl>, installed: Seq<Hkl>)
    ensures
        ({
            let (s2, p) = spec_plan_toggle(st, current, english, installed);
            let cur = current.0 % 0x10000;
            &&& s2 == (AppState { last_cjk_hkl: s2.last_cjk_hkl, ..st })
            &&& cur != 0x0409 ==> s2.last_cjk_hkl == Some(current)
            &&& cur != 0x0409 && english is None ==> p is None
            &&& cur != 0x0409 && english is Some && english.unwrap().0 % 0x10000 != cur ==> p is Some
                && p.unwrap().target == english.unwrap()
            &&& cur == 0x0409 ==> s2 == st
            &&& cur == 0x0409 && st.last_cjk_hkl is Some && st.last_cjk_hkl.unwrap().0 % 0x10000
                != cur ==> p is Some && p.unwrap().target == st.last_cjk_hkl.unwrap()
            &&& p is Some ==> p.unwrap().target.0 % 0x10000 != cur && p.unwrap().goal
                == SwitchGoal::ReachLang((p.unwrap().target.0 % 0x10000) as u16) && 1
                <= p.unwrap().budget <= 8 && (1 <= installed.len() <= 8 ==> p.unwrap().budget
                == installed.len())
        }),
{
}

/// Two-state round trip: switching away from a non-English layout `cjk` to
/// English and pressing again from any English layout targets `cjk` again.
pub proof fn lemma_toggle_round_trip(
    st: AppState,
    cjk: Hkl,
    english: Hkl,
    back_from: Hkl,
    english_again: Option<Hkl>,
    installed: Seq<Hkl>,
)
    requires
        lang_of(cjk) != LANG_EN_US,
        lang_of(english) == LANG_EN_US,
        lang_of(back_from) == LANG_EN_US,
    ensures
        ({
            let (s1, p1) = spec_plan_toggle(st, cjk, Some(english), installed);
            let (s2, p2) = spec_plan_toggle(s1, back_from, english_again, installed);
            &&& p1 == Some(
                SwitchPlan {
                    goal: SwitchGoal::ReachLang(LANG_EN_US),
                    target: english,
                    budget: toggle_budget(installed.len()),
                },
            )
            &&& s1.last_cjk_hkl == Some(cjk)
            &&& p2 == Some(
                SwitchPlan {
                    goal: SwitchGoal::ReachLang(lang_of(cjk)),
                    target: cjk,
                    budget: toggle_budget(installed.len()),
                },
            )
        }),
{
}

} // verus!
