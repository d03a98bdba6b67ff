# lock-ime

A Windows tray tool that keeps Microsoft's Chinese IME in Chinese mode and the
Japanese IME in a chosen conversion mode whenever the focus changes, and turns
CapsLock into a layout switch (short press: English (US) <-> last CJK layout;
long press: a real CapsLock, by default after 300 ms).

## Layout

- `src/` — the library `lock_ime`, written in Verus: every decision of the
  program with its contract and proofs.
  - `config` — the settings, their defaults and the upgrade of older settings files;
  - `keyboard`, `state` — the CapsLock press judgement and the layout switches
    (direct switch, checked and retried with Win+Space within a budget);
  - `lang` — layouts and their languages;
  - `events`, `ime` — which IME lock applies to the foreground window, and
    which IME messages are needed;
  - `flyout`, `tray`, `settings_window`, `autostart` — panel geometry and
    show/hide/animation decisions, menu texts, the settings window's controls
    and threshold text, the registry value bytes.
- `app/` — the Windows program around the library: hooks, timers, IMM32
  messages, key injection, the registry, the settings file (TOML), the tray
  icon, the WinUI 3 flyout and the Win32 settings window.
- `tests/` — tests of the library.
