//! Focus and foreground changes: which IME lock to apply to the foreground
//! window.
//!
//! The caller reads the foreground window, its focused control and its layout,
//! asks `apply_for_foreground` what to do, and sends the IME messages.

use vstd::prelude::*;
use crate::config::Config;
use crate::ime::{japanese_conversion_mode, spec_japanese_conversion_mode};
use crate::lang::{LANG_JA, LANG_ZH_CN};

verus! {

/// Style bit of a password edit control.
pub const ES_PASSWORD: isize = 0x0020;

/// The lock to apply to the foreground window.
#[derive(Debug, Clone, Copy, PartialEq, Eq, Structural)]
pub enum LockJob {
    /// Make sure the Chinese IME is open (Chinese mode).
    Chinese,
    /// Make sure the Japanese IME is open and in this conversion mode.
    Japanese(u32),
}

/// The lock for a window whose layout has the primary language `language`.
pub open spec fn spec_lock_for(language: u16, config: Config) -> Option<LockJob> {
    if language == LANG_ZH_CN && config.chinese_lock_enabled {
        Some(LockJob::Chinese)
    } else if language == LANG_JA && config.japanese_lock_enabled {
        Some(LockJob::Japanese(spec_japanese_conversion_mode(config.japanese_mode)))
    } else {
        None
    }
}

/// Decides the IME lock for the foreground window.
///
/// Nothing is done without a valid foreground window, or when the focus is in a
/// password box (passwords are typed directly in English). Otherwise a Chinese
/// layout is held in Chinese mode and a Japanese layout in the configured
/// conversion mode, each only when its feature is on. The lock is idempotent:
/// the caller only changes a mode that differs from the target (see
/// `ime::imm32`).
pub fn apply_for_foreground(
    window_valid: bool,
    password_focus: bool,
    language: u16,
    config: &Config,
) -> (r: Option<LockJob>)
    ensures
        r == (if !window_valid || password_focus {
            None
        } else {
            spec_lock_for(language, *config)
        }),
{
    if !window_valid {
        return None;
    }
    if password_focus {
        return None;
    }
    if language == LANG_ZH_CN && config.chinese_lock_enabled {
        Some(LockJob::Chinese)
    } else if language == LANG_JA && config.japanese_lock_enabled {
        Some(LockJob::Japanese(japanese_conversion_mode(config.japanese_mode)))
    } else {
        None
    }
}

/// ASCII lower case of a UTF-16 unit: 'A'..'Z' become 'a'..'z', every other
/// unit (including every non-ASCII one) is left as it is.
pub open spec fn ascii_lower(u: u16) -> u16 {
    if 0x41 <= u <= 0x5A {
        (u + 0x20) as u16
    } else {
        u
    }
}

/// The standard edit control's class name, "Edit", in lower case.
pub open spec fn edit_class_lower(k: int) -> u16 {
    if k == 0 {
        0x65u16
    } else if k == 1 {
        0x64u16
    } else if k == 2 {
        0x69u16
    } else {
        0x74u16
    }
}

/// Whether a focused control, given its class name (`len` UTF-16 units of
/// `class`) and window style, is a password box: a standard edit control (the
/// class name equals "Edit", ignoring ASCII case) with the password style.
pub open spec fn spec_is_password_class(class: Seq<u16>, len: i32, style: isize) -> bool {
    &&& len == 4
    &&& forall|k: int| 0 <= k < 4 ==> ascii_lower(#[trigger] class[k]) == edit_class_lower(k)
    &&& style & ES_PASSWORD != 0
}

fn lower(u: u16) -> (r: u16)
    ensures
        r == ascii_lower(u),
{
    if 0x41 <= u && u <= 0x5A {
        u + 0x20
    } else {
        u
    }
}

/// Recognizes a password box from the focused control's class name and style.
///
/// Only native Win32 edit controls are recognized; password boxes that
/// browsers or Electron draw themselves are not.
pub fn is_password_class(class: &[u16], len: i32, style: isize) -> (r: bool)
    requires
        class@.len() >= 4,
    ensures
        r == spec_is_password_class(class@, len, style),
{
    if len <= 0 {
        return false;
    }
    if len != 4 {
        return false;
    }
    let edit: [u16; 4] = [0x65, 0x64, 0x69, 0x74];
    let mut k: usize = 0;
    while k < 4
        invariant
            class@.len() >= 4,
            k <= 4,
            edit@ == seq![0x65u16, 0x64u16, 0x69u16, 0x74u16],
            forall|j: int| 0 <= j < k ==> ascii_lower(#[trigger] class@[j]) == edit_class_lower(j),
        decreases 4 - k,
    {
        assert(edit@[k as int] == edit_class_lower(k as int));
        if lower(class[k]) != edit[k] {
            return false;
        }
        k = k + 1;
    }
    style & ES_PASSWORD != 0
}

/// The lock rules: in a valid window without password focus, a Chinese layout
/// gets the Chinese lock exactly when the Chinese lock is on, and a Japanese
/// layout gets the Japanese lock with the flags of the chosen mode (hiragana
/// 0x9, katakana 0xB, full-width alphanumerics 0x8) exactly when the Japanese
/// lock is on; each depends only on its own setting, and other layouts, password
/// boxes and invalid windows get nothing.
pub proof fn lemma_lock_rules(language: u16, c: Config, c2: Config)
    ensures
        spec_lock_for(0x0804, c) == (if c.chinese_lock_enabled {
            Some(LockJob::Chinese)
        } else {
            None
        }),
        c.japanese_lock_enabled ==> spec_lock_for(0x0411, c) == Some(
            LockJob::Japanese(
                match c.japanese_mode {
                    crate::config::JapaneseMode::Hiragana => 0x9u32,
                    crate::config::JapaneseMode::Katakana => 0xBu32,
                    crate::config::JapaneseMode::FullWidthAlnum => 0x8u32,
                },
            ),
        ),
        !c.japanese_lock_enabled ==> spec_lock_for(0x0411, c) is None,
        language != 0x0804 && language != 0x0411 ==> spec_lock_for(language, c) is None,
        c.chinese_lock_enabled == c2.chinese_lock_enabled ==> spec_lock_for(0x0804, c)
            == spec_lock_for(0x0804, c2),
        c.japanese_lock_enabled == c2.japanese_lock_enabled && c.japanese_mode == c2.japanese_mode
            ==> spec_lock_for(0x0411, c) == spec_lock_for(0x0411, c2),
{
}

/// Only a name that is "Edit" up to ASCII case is an edit control: a name that
/// differs from it in any unit outside ASCII letters' case is not.
pub proof fn lemma_password_class_exact(class: Seq<u16>, style: isize)
    requires
        class.len() >= 4,
        spec_is_password_class(class, 4, style),
    ensures
        class[0] == 0x45 || class[0] == 0x65,
        class[1] == 0x44 || class[1] == 0x64,
        class[2] == 0x49 || class[2] == 0x69,
        class[3] == 0x54 || class[3] == 0x74,
{
    assert(ascii_lower(class[0]) == edit_class_lower(0));
    assert(ascii_lower(class[1]) == edit_class_lower(1));
    assert(ascii_lower(class[2]) == edit_class_lower(2));
    assert(ascii_lower(class[3]) == edit_class_lower(3));
}

} // verus!
