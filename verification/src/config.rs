//! The settings model: what each feature is set to, the defaults, and how a
//! settings file written by an older version is brought up to date.
//!
//! Reading and writing the TOML file on disk happens outside this crate; this
//! module decides what the loaded settings become.

use vstd::prelude::*;

verus! {

/// The conversion mode that the Japanese IME is held in.
#[derive(Debug, Clone, Copy, PartialEq, Eq, Structural)]
pub enum JapaneseMode {
    /// Hiragana (full width).
    Hiragana,
    /// Katakana (full width).
    Katakana,
    /// Full-width alphanumerics.
    FullWidthAlnum,
}

impl Default for JapaneseMode {
    fn default() -> (r: Self)
        ensures
            r == JapaneseMode::Hiragana,
    {
        JapaneseMode::Hiragana
    }
}

/// What a short or a long press of CapsLock does.
#[derive(Debug, Clone, Copy, PartialEq, Eq, Structural)]
pub enum CapslockAction {
    /// Two-state switch between the last CJK layout and English (US).
    CjkUs,
    /// Step to the next installed layout, as Win+Space does.
    Cycle,
    /// A real CapsLock press (the system's own behaviour).
    CapsLock,
}

impl Default for CapslockAction {
    fn default() -> (r: Self)
        ensures
            r == CapslockAction::CjkUs,
    {
        CapslockAction::CjkUs
    }
}

/// How a short CapsLock press switched layouts in settings files of older
/// versions; only read when such a file is brought up to date.
#[derive(Debug, Clone, Copy, PartialEq, Eq, Structural)]
pub enum CapslockSwitchMode {
    CjkUs,
    Cycle,
}

/// All settings of the program.
#[derive(Debug, Clone)]
pub struct Config {
    /// Hold the Chinese IME in Chinese mode on focus changes and layout switches.
    pub chinese_lock_enabled: bool,
    /// Hold the Japanese IME in the chosen conversion mode.
    pub japanese_lock_enabled: bool,
    /// The conversion mode the Japanese IME is held in.
    pub japanese_mode: JapaneseMode,
    /// What a short CapsLock press does.
    pub capslock_short_action: CapslockAction,
    /// What a long CapsLock press does.
    pub capslock_long_action: CapslockAction,
    /// How many milliseconds a press must last to count as long.
    pub capslock_longpress_ms: u64,
    /// Start with Windows.
    pub autostart: bool,
    /// Switch on/off flag of older settings files; read, never written back.
    pub capslock_switch_enabled: Option<bool>,
    /// Switch mode of older settings files; read, never written back.
    pub capslock_switch_mode: Option<CapslockSwitchMode>,
}

/// The action a legacy switch mode stands for.
pub open spec fn mode_action(mode: CapslockSwitchMode) -> CapslockAction {
    match mode {
        CapslockSwitchMode::CjkUs => CapslockAction::CjkUs,
        CapslockSwitchMode::Cycle => CapslockAction::Cycle,
    }
}

/// The (short, long) actions that an on/off switch with a mode stands for:
/// on means a short press switches layouts in that mode and a long press is a
/// real CapsLock; off means both are a real CapsLock.
pub open spec fn switch_actions(enabled: bool, mode: CapslockSwitchMode) -> (
    CapslockAction,
    CapslockAction,
) {
    if enabled {
        (mode_action(mode), CapslockAction::CapsLock)
    } else {
        (CapslockAction::CapsLock, CapslockAction::CapsLock)
    }
}

/// The legacy switch that a settings file of an older version held, if any:
/// a flag without a mode means the two-state switch, a mode without a flag
/// means the switch was on.
pub open spec fn legacy_switch(c: Config) -> Option<(bool, CapslockSwitchMode)> {
    match (c.capslock_switch_enabled, c.capslock_switch_mode) {
        (Some(enabled), Some(mode)) => Some((enabled, mode)),
        (Some(enabled), None) => Some((enabled, CapslockSwitchMode::CjkUs)),
        (None, Some(mode)) => Some((true, mode)),
        (None, None) => None,
    }
}

impl Config {
    /// Whether CapsLock presses are intercepted at all: when both presses are a
    /// real CapsLock the system's own behaviour is what is wanted.
    pub open spec fn spec_capslock_active(self) -> bool {
        !(self.capslock_short_action == CapslockAction::CapsLock
            && self.capslock_long_action == CapslockAction::CapsLock)
    }

    /// Whether the settings still hold fields of an older version.
    pub open spec fn spec_has_legacy(self) -> bool {
        self.capslock_switch_enabled is Some || self.capslock_switch_mode is Some
    }

    /// The settings with the legacy switch turned into short/long actions and
    /// the legacy fields cleared; unchanged when there is no legacy switch.
    pub open spec fn spec_migrate(self) -> Config {
        match legacy_switch(self) {
            Some((enabled, mode)) => Config {
                capslock_short_action: switch_actions(enabled, mode).0,
                capslock_long_action: switch_actions(enabled, mode).1,
                capslock_switch_enabled: None,
                capslock_switch_mode: None,
                ..self
            },
            None => self,
        }
    }

    /// Whether CapsLock presses are intercepted at all.
    pub fn capslock_active(&self) -> (r: bool)
        ensures
            r == self.spec_capslock_active(),
    {
        !(self.capslock_short_action == CapslockAction::CapsLock
            && self.capslock_long_action == CapslockAction::CapsLock)
    }

    /// Whether the settings still hold fields of an older version (and must be
    /// written back once they are brought up to date).
    pub fn has_legacy(&self) -> (r: bool)
        ensures
            r == self.spec_has_legacy(),
    {
        self.capslock_switch_enabled.is_some() || self.capslock_switch_mode.is_some()
    }

    /// Sets the short and long actions from an on/off switch with a mode, as the
    /// tray menu's and the settings window's CapsLock check box do.
    pub fn set_capslock_switch(&mut self, enabled: bool, mode: CapslockSwitchMode)
        ensures
            final(self).capslock_short_action == switch_actions(enabled, mode).0,
            final(self).capslock_long_action == switch_actions(enabled, mode).1,
            final(self).chinese_lock_enabled == old(self).chinese_lock_enabled,
            final(self).japanese_lock_enabled == old(self).japanese_lock_enabled,
            final(self).japanese_mode == old(self).japanese_mode,
            final(self).capslock_longpress_ms == old(self).capslock_longpress_ms,
            final(self).autostart == old(self).autostart,
            final(self).capslock_switch_enabled == old(self).capslock_switch_enabled,
            final(self).capslock_switch_mode == old(self).capslock_switch_mode,
    {
        if enabled {
            self.capslock_short_action = match mode {
                CapslockSwitchMode::CjkUs => CapslockAction::CjkUs,
                CapslockSwitchMode::Cycle => CapslockAction::Cycle,
            };
            self.capslock_long_action = CapslockAction::CapsLock;
        } else {
            self.capslock_short_action = CapslockAction::CapsLock;
            self.capslock_long_action = CapslockAction::CapsLock;
        }
    }

    /// The switch mode the settings window shows for the current short action.
    pub fn switch_mode(&self) -> (r: CapslockSwitchMode)
        ensures
            r == (if self.capslock_short_action == CapslockAction::Cycle {
                CapslockSwitchMode::Cycle
            } else {
                CapslockSwitchMode::CjkUs
            }),
    {
        if self.capslock_short_action == CapslockAction::Cycle {
            CapslockSwitchMode::Cycle
        } else {
            CapslockSwitchMode::CjkUs
        }
    }

    /// Brings settings of an older version up to date: the legacy switch flag and
    /// mode become the short/long actions and are cleared.
    ///
    /// Legacy fields only occur in files written by older versions, which had no
    /// action fields, so the actions are overwritten outright: switch on means a
    /// short press switches in the old mode and a long press is a real CapsLock;
    /// off means both are a real CapsLock. The caller writes the file back when
    /// `has_legacy` held before the call.
    pub fn migrate(cfg: Config) -> (r: Config)
        ensures
            r == cfg.spec_migrate(),
    {
        let mut cfg = cfg;
        let legacy = match (cfg.capslock_switch_enabled, cfg.capslock_switch_mode) {
            (Some(enabled), mode) => Some(
                (
                    enabled,
                    match mode {
                        Some(m) => m,
                        None => CapslockSwitchMode::CjkUs,
                    },
                ),
            ),
            (None, Some(mode)) => Some((true, mode)),
            (None, None) => None,
        };
        if let Some((enabled, mode)) = legacy {
            cfg.set_capslock_switch(enabled, mode);
            cfg.capslock_switch_enabled = None;
            cfg.capslock_switch_mode = None;
        }
        cfg
    }

    /// What loading the settings file comes to: the parsed settings brought up
    /// to date, or the defaults when the file was missing or did not parse; the
    /// flag says whether the result must be written back to disk.
    pub fn from_loaded(parsed: Option<Config>) -> (r: (Config, bool))
        ensures
            match parsed {
                Some(c) => r.0 == c.spec_migrate() && r.1 == c.spec_has_legacy(),
                None => r.0 == spec_default_config() && r.1,
            },
    {
        match parsed {
            Some(cfg) => {
                let write_back = cfg.has_legacy();
                (Config::migrate(cfg), write_back)
            },
            None => (Config::default(), true),
        }
    }
}

/// The default settings.
pub open spec fn spec_default_config() -> Config {
    Config {
        chinese_lock_enabled: true,
        japanese_lock_enabled: true,
        japanese_mode: JapaneseMode::Hiragana,
        capslock_short_action: CapslockAction::CjkUs,
        capslock_long_action: CapslockAction::CapsLock,
        capslock_longpress_ms: 300,
        autostart: false,
        capslock_switch_enabled: None,
        capslock_switch_mode: None,
    }
}

impl Default for Config {
    fn default() -> (r: Self)
        ensures
            r == spec_default_config(),
    {
        Config {
            chinese_lock_enabled: true,
            japanese_lock_enabled: true,
            japanese_mode: JapaneseMode::Hiragana,
            capslock_short_action: CapslockAction::CjkUs,
            capslock_long_action: CapslockAction::CapsLock,
            capslock_longpress_ms: 300,
            autostart: false,
            capslock_switch_enabled: None,
            capslock_switch_mode: None,
        }
    }
}

/// Bringing settings up to date leaves no legacy fields behind, and a second
/// pass changes nothing.
pub proof fn lemma_migrate_settles(c: Config)
    ensures
        !c.spec_migrate().spec_has_legacy(),
        c.spec_migrate().spec_migrate() == c.spec_migrate(),
        !c.spec_has_legacy() ==> c.spec_migrate() == c,
{
}

/// A legacy switch that was on keeps CapsLock intercepted after migration, one
/// that was off hands CapsLock back to the system; the other settings stay.
pub proof fn lemma_migrate_keeps_switch(c: Config)
    requires
        c.spec_has_legacy(),
    ensures
        c.spec_migrate().spec_capslock_active() == legacy_switch(c).unwrap().0,
        c.spec_migrate().chinese_lock_enabled == c.chinese_lock_enabled,
        c.spec_migrate().japanese_lock_enabled == c.japanese_lock_enabled,
        c.spec_migrate().japanese_mode == c.japanese_mode,
        c.spec_migrate().capslock_longpress_ms == c.capslock_longpress_ms,
        c.spec_migrate().autostart == c.autostart,
{
}

/// Turning the CapsLock switch on or off is what `capslock_active` reports
/// afterwards.
pub proof fn lemma_switch_sets_active(c: Config, enabled: bool, mode: CapslockSwitchMode)
    ensures
        (Config {
            capslock_short_action: switch_actions(enabled, mode).0,
            capslock_long_action: switch_actions(enabled, mode).1,
            ..c
        }).spec_capslock_active() == enabled,
{
}

/// What an older settings file comes to, case by case: a switch that was on
/// keeps its mode for the short press (CJK/US stays CJK/US, cycling stays
/// cycling; no mode means CJK/US; a mode without the flag means on) and makes
/// the long press a real CapsLock; a switch that was off makes both presses a
/// real CapsLock. The legacy fields are cleared in every case.
pub proof fn lemma_migrate_cases(c: Config, m: CapslockSwitchMode, mo: Option<CapslockSwitchMode>)
    ensures
        ({
            let on = (Config {
                capslock_switch_enabled: Some(true),
                capslock_switch_mode: Some(m),
                ..c
            }).spec_migrate();
            &&& m == CapslockSwitchMode::CjkUs ==> on.capslock_short_action == CapslockAction::CjkUs
            &&& m == CapslockSwitchMode::Cycle ==> on.capslock_short_action == CapslockAction::Cycle
            &&& on.capslock_long_action == CapslockAction::CapsLock
            &&& on.capslock_switch_enabled is None && on.capslock_switch_mode is None
        }),
        ({
            let on = (Config {
                capslock_switch_enabled: Some(true),
                capslock_switch_mode: None,
                ..c
            }).spec_migrate();
            &&& on.capslock_short_action == CapslockAction::CjkUs
            &&& on.capslock_long_action == CapslockAction::CapsLock
            &&& on.capslock_switch_enabled is None && on.capslock_switch_mode is None
        }),
        ({
            let on = (Config {
                capslock_switch_enabled: None,
                capslock_switch_mode: Some(m),
                ..c
            }).spec_migrate();
            &&& m == CapslockSwitchMode::CjkUs ==> on.capslock_short_action == CapslockAction::CjkUs
            &&& m == CapslockSwitchMode::Cycle ==> on.capslock_short_action == CapslockAction::Cycle
            &&& on.capslock_long_action == CapslockAction::CapsLock
            &&& on.capslock_switch_enabled is None && on.capslock_switch_mode is None
        }),
        ({
            let off = (Config {
                capslock_switch_enabled: Some(false),
                capslock_switch_mode: mo,
                ..c
            }).spec_migrate();
            &&& off.capslock_short_action == CapslockAction::CapsLock
            &&& off.capslock_long_action == CapslockAction::CapsLock
            &&& off.capslock_switch_enabled is None && off.capslock_switch_mode is None
        }),
{
}

/// The on/off switch of the tray menu and the settings window: on with CJK/US
/// is a CJK/US short press, on with cycling a cycling short press, each with a
/// real CapsLock on long press; off is a real CapsLock on both.
pub proof fn lemma_switch_actions_cases(m: CapslockSwitchMode)
    ensures
        switch_actions(true, CapslockSwitchMode::CjkUs) == (
            CapslockAction::CjkUs,
            CapslockAction::CapsLock,
        ),
        switch_actions(true, CapslockSwitchMode::Cycle) == (
            CapslockAction::Cycle,
            CapslockAction::CapsLock,
        ),
        switch_actions(false, m) == (CapslockAction::CapsLock, CapslockAction::CapsLock),
{
}

/// The defaults: both locks on, hiragana, a short press switches between
/// English and CJK, a press of 300 ms or more is a real CapsLock; CapsLock is
/// intercepted and there are no legacy fields.
pub proof fn lemma_default_config()
    ensures
        spec_default_config().chinese_lock_enabled,
        spec_default_config().japanese_lock_enabled,
        spec_default_config().japanese_mode == JapaneseMode::Hiragana,
        spec_default_config().capslock_short_action == CapslockAction::CjkUs,
        spec_default_config().capslock_long_action == CapslockAction::CapsLock,
        spec_default_config().capslock_longpress_ms == 300,
        !spec_default_config().autostart,
        spec_default_config().spec_capslock_active(),
        !spec_default_config().spec_has_legacy(),
        spec_default_config().spec_migrate() == spec_default_config(),
{
}

} // verus!
