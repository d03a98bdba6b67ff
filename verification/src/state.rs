//! The program's shared state: the settings, the CapsLock press being judged,
//! and the layout switch in progress.

use vstd::prelude::*;
use crate::config::Config;
use crate::lang::Hkl;

verus! {

/// What a layout switch in progress waits for.
#[derive(Debug, Clone, Copy, PartialEq, Eq, Structural)]
pub enum SwitchGoal {
    /// The foreground layout has this primary language.
    ReachLang(u16),
    /// The foreground layout is no longer this one.
    LeaveHkl(Hkl),
}

/// State shared by the hooks and the timer handler.
pub struct AppState {
    /// The settings.
    pub config: Config,
    /// The hidden message window that receives the timers, by handle value.
    pub hidden_hwnd: isize,
    /// A physical CapsLock press has been swallowed and is being judged short or long.
    pub caps_pending: bool,
    /// The pending press has already been taken as a long press.
    pub caps_consumed: bool,
    /// Key events are being synthesized; the hook lets its own injected events through.
    pub injecting: bool,
    /// The last CJK layout the two-state switch left, to return to.
    pub last_cjk_hkl: Option<Hkl>,
    /// The layout switch being checked, if any.
    pub switch_goal: Option<SwitchGoal>,
    /// How many more Win+Space presses the switch in progress may send.
    pub switch_remaining: u8,
}

impl AppState {
    /// The CapsLock judgement is consistent: a press taken as long is still pending.
    pub open spec fn caps_inv(self) -> bool {
        self.caps_consumed ==> self.caps_pending
    }

    /// A fresh state: nothing pending, nothing being switched.
    pub fn new(config: Config, hidden_hwnd: isize) -> (r: Self)
        ensures
            r.config == config,
            r.hidden_hwnd == hidden_hwnd,
            !r.caps_pending,
            !r.caps_consumed,
            !r.injecting,
            r.last_cjk_hkl is None,
            r.switch_goal is None,
            r.switch_remaining == 0,
            r.caps_inv(),
    {
        AppState {
            config,
            hidden_hwnd,
            caps_pending: false,
            caps_consumed: false,
            injecting: false,
            last_cjk_hkl: None,
            switch_goal: None,
            switch_remaining: 0,
        }
    }
}

} // verus!
