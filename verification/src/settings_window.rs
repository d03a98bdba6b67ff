//! The classic settings window (used when the flyout is not available): what
//! its controls show for given settings, and what settings its controls give.
//!
//! The window and its controls are Win32 and live outside this crate; the
//! caller reads and writes the controls as plain values (check states and the
//! threshold field's UTF-16 text).

use vstd::prelude::*;
use crate::config::{CapslockSwitchMode, Config, JapaneseMode, switch_actions};

verus! {

/// The threshold used when the field does not hold a number.
pub const DEFAULT_LONGPRESS_MS: u64 = 300;

/// The state of the settings window's controls.
pub struct SettingsControls {
    /// "Lock Chinese mode" check box.
    pub chinese: bool,
    /// "Lock Japanese conversion mode" check box.
    pub japanese: bool,
    /// "Short press switches layouts" check box.
    pub capslock: bool,
    /// "Start with Windows" check box.
    pub autostart: bool,
    /// The Japanese mode radio buttons.
    pub hiragana: bool,
    pub katakana: bool,
    pub full_width: bool,
    /// The switch mode radio buttons.
    pub cjk_us: bool,
    pub cycle: bool,
    /// The long-press threshold field's text, UTF-16.
    pub longpress_text: Vec<u16>,
}

/// Whether a UTF-16 unit is white space (`char::is_whitespace`; all such
/// characters are single units).
pub open spec fn is_ws(u: u16) -> bool {
    (0x9 <= u <= 0xD) || u == 0x20 || u == 0x85 || u == 0xA0 || u == 0x1680 || (0x2000 <= u
        <= 0x200A) || u == 0x2028 || u == 0x2029 || u == 0x202F || u == 0x205F || u == 0x3000
}

pub open spec fn trim_start(s: Seq<u16>) -> Seq<u16>
    decreases s.len(),
{
    if s.len() > 0 && is_ws(s[0]) {
        trim_start(s.drop_first())
    } else {
        s
    }
}

pub open spec fn trim_end(s: Seq<u16>) -> Seq<u16>
    decreases s.len(),
{
    if s.len() > 0 && is_ws(s[s.len() - 1]) {
        trim_end(s.drop_last())
    } else {
        s
    }
}

/// The text without leading and trailing white space (`str::trim`).
pub open spec fn trim(s: Seq<u16>) -> Seq<u16> {
    trim_end(trim_start(s))
}

pub open spec fn is_digit(u: u16) -> bool {
    0x30 <= u <= 0x39
}

pub open spec fn all_digits(s: Seq<u16>) -> bool {
    forall|i: int| 0 <= i < s.len() ==> is_digit(#[trigger] s[i])
}

/// The value of a run of decimal digits.
pub open spec fn digits_value(s: Seq<u16>) -> nat
    decreases s.len(),
{
    if s.len() == 0 {
        0
    } else {
        digits_value(s.drop_last()) * 10 + (s[s.len() - 1] - 0x30) as nat
    }
}

/// `u64::from_str`: an optional '+', then one or more decimal digits whose value
/// fits in 64 bits.
pub open spec fn parse_u64(s: Seq<u16>) -> Option<u64> {
    let body = if s.len() > 0 && s[0] == 0x2B {
        s.drop_first()
    } else {
        s
    };
    if body.len() > 0 && all_digits(body) && digits_value(body) <= u64::MAX {
        Some(digits_value(body) as u64)
    } else {
        None
    }
}

/// The threshold the field's text stands for: the trimmed text as a number, or
/// the default when it is not one.
pub open spec fn spec_parse_threshold(text: Seq<u16>) -> u64 {
    match parse_u64(trim(text)) {
        Some(v) => v,
        None => DEFAULT_LONGPRESS_MS,
    }
}

/// The decimal digits of `n`, most significant first, no leading zeros.
pub open spec fn decimal(n: nat) -> Seq<u16>
    decreases n,
{
    if n < 10 {
        seq![(n + 0x30) as u16]
    } else {
        decimal(n / 10).push(((n % 10) + 0x30) as u16)
    }
}

fn is_ws_unit(u: u16) -> (r: bool)
    ensures
        r == is_ws(u),
{
    (0x9 <= u && u <= 0xD) || u == 0x20 || u == 0x85 || u == 0xA0 || u == 0x1680 || (0x2000 <= u
        && u <= 0x200A) || u == 0x2028 || u == 0x2029 || u == 0x202F || u == 0x205F || u == 0x3000
}

proof fn lemma_trim_start_skip(s: Seq<u16>, i: int)
    requires
        0 <= i < s.len(),
        is_ws(s[i]),
    ensures
        trim_start(s.skip(i)) == trim_start(s.skip(i + 1)),
{
    assert(s.skip(i).drop_first() =~= s.skip(i + 1));
}

proof fn lemma_trim_end_take(s: Seq<u16>, j: int)
    requires
        0 < j <= s.len(),
        is_ws(s[j - 1]),
    ensures
        trim_end(s.take(j)) == trim_end(s.take(j - 1)),
{
    assert(s.take(j).drop_last() =~= s.take(j - 1));
}

/// A longer run of digits is worth at least as much as its prefix.
proof fn lemma_digits_value_prefix(s: Seq<u16>, i: int)
    requires
        0 <= i <= s.len(),
        all_digits(s),
    ensures
        digits_value(s.take(i)) <= digits_value(s),
    decreases s.len() - i,
{
    if i < s.len() {
        lemma_digits_value_prefix(s, i + 1);
        assert(s.take(i + 1).drop_last() =~= s.take(i));
        assert(is_digit(s[i]));
    } else {
        assert(s.take(i) =~= s);
    }
}

/// Parses the threshold field: the text trimmed of white space, read as a
/// decimal number (an optional '+', then digits, within 64 bits); any other
/// text gives the default of 300 ms.
pub fn parse_threshold(text: &Vec<u16>) -> (r: u64)
    ensures
        r == spec_parse_threshold(text@),
{
    let ghost s = text@;
    let n = text.len();
    let mut i: usize = 0;
    assert(s.skip(0) =~= s);
    while i < n && is_ws_unit(text[i])
        invariant
            s == text@,
            n == s.len(),
            i <= n,
            trim_start(s) == trim_start(s.skip(i as int)),
        decreases n - i,
    {
        proof {
            lemma_trim_start_skip(s, i as int);
        }
        i = i + 1;
    }
    let ghost t = s.skip(i as int);
    assert(trim_start(s) == t) by {
        if i < n {
            assert(t[0] == s[i as int]);
        } else {
            assert(t.len() == 0);
        }
    }
    let mut j: usize = n;
    assert(t.take(t.len() as int) =~= t);
    while j > i && is_ws_unit(text[j - 1])
        invariant
            s == text@,
            n == s.len(),
            i <= j <= n,
            t == s.skip(i as int),
            trim_end(t) == trim_end(t.take(j - i)),
        decreases j - i,
    {
        proof {
            assert(t[j - i - 1] == s[j - 1]);
            lemma_trim_end_take(t, (j - i) as int);
        }
        j = j - 1;
    }
    let ghost body0 = t.take(j - i);
    assert(trim(s) == body0) by {
        if j > i {
            assert(body0[body0.len() - 1] == s[j - 1]);
        }
    }
    assert(body0 =~= s.subrange(i as int, j as int));
    // Optional plus sign.
    let mut k = i;
    if k < j && text[k] == 0x2B {
        k = k + 1;
    }
    let ghost body = s.subrange(k as int, j as int);
    if i < j {
        assert(body0[0] == s[i as int]);
    }
    assert(body =~= (if body0.len() > 0 && body0[0] == 0x2B {
        body0.drop_first()
    } else {
        body0
    }));
    if k >= j {
        assert(body.len() == 0);
        return DEFAULT_LONGPRESS_MS;
    }
    assert(spec_parse_threshold(s) == (if all_digits(body) && digits_value(body) <= u64::MAX {
        digits_value(body) as u64
    } else {
        DEFAULT_LONGPRESS_MS
    }));
    let mut acc: u64 = 0;
    let mut p = k;
    assert(body.take(0) =~= Seq::<u16>::empty());
    while p < j
        invariant
            s == text@,
            n == s.len(),
            k <= p <= j <= n,
            body == s.subrange(k as int, j as int),
            spec_parse_threshold(s) == (if all_digits(body) && digits_value(body) <= u64::MAX {
                digits_value(body) as u64
            } else {
                DEFAULT_LONGPRESS_MS
            }),
            all_digits(body.take(p - k)),
            acc == digits_value(body.take(p - k)),
        decreases j - p,
    {
        let u = text[p];
        assert(body[p - k] == u);
        assert(body.take(p - k + 1).drop_last() =~= body.take(p - k));
        if u < 0x30 || u > 0x39 {
            assert(!all_digits(body)) by {
                assert(!is_digit(body[p - k]));
            }
            return DEFAULT_LONGPRESS_MS;
        }
        let d = (u - 0x30) as u64;
        if acc > (u64::MAX - d) / 10 {
            proof {
                assert(acc * 10 + d > u64::MAX) by (nonlinear_arith)
                    requires
                        acc > (u64::MAX - d) / 10,
                        d <= 9,
                ;
                assert(digits_value(body.take(p - k + 1)) == acc * 10 + d);
                if all_digits(body) {
                    lemma_digits_value_prefix(body, p - k + 1);
                }
            }
            return DEFAULT_LONGPRESS_MS;
        }
        assert(acc * 10 + d <= u64::MAX) by (nonlinear_arith)
            requires
                acc <= (u64::MAX - d) / 10,
                d <= 9,
        ;
        acc = acc * 10 + d;
        assert(all_digits(body.take(p - k + 1))) by {
            assert forall|q: int| 0 <= q < p - k + 1 implies is_digit(
                #[trigger] body.take(p - k + 1)[q],
            ) by {
                if q < p - k {
                    assert(body.take(p - k + 1)[q] == body.take(p - k)[q]);
                }
            }
        }
        p = p + 1;
    }
    assert(body.take(j - k) =~= body);
    acc
}

proof fn lemma_decimal_digits(n: nat)
    ensures
        decimal(n).len() > 0,
        all_digits(decimal(n)),
        digits_value(decimal(n)) == n,
        decimal(n)[0] != 0x2B,
        !is_ws(decimal(n)[0]),
        !is_ws(decimal(n)[decimal(n).len() - 1]),
    decreases n,
{
    if n >= 10 {
        lemma_decimal_digits(n / 10);
        let d = decimal(n);
        assert(d.drop_last() =~= decimal(n / 10));
        assert forall|i: int| 0 <= i < d.len() implies is_digit(#[trigger] d[i]) by {
            if i < d.len() - 1 {
                assert(d[i] == decimal(n / 10)[i]);
            }
        }
        vstd::arithmetic::div_mod::lemma_fundamental_div_mod(n as int, 10);
        assert(n % 10 < 10);
        assert(d[d.len() - 1] == ((n % 10) + 0x30) as u16);
        assert(digits_value(d) == digits_value(decimal(n / 10)) * 10 + (n % 10));
    } else {
        let d = decimal(n);
        assert(d.drop_last() =~= Seq::<u16>::empty());
        assert(digits_value(d.drop_last()) == 0);
    }
}

/// Writes the decimal digits of `n` after `out`.
fn push_decimal(n: u64, out: &mut Vec<u16>)
    ensures
        final(out)@ == old(out)@ + decimal(n as nat),
    decreases n,
{
    if n >= 10 {
        push_decimal(n / 10, out);
    }
    let d: u16 = (n % 10) as u16;
    out.push(d + 0x30);
    assert(decimal(n as nat) =~= if n < 10 {
        seq![(n + 0x30) as u16]
    } else {
        decimal((n / 10) as nat).push(((n % 10) + 0x30) as u16)
    });
}

/// The threshold field's text for a threshold: its decimal digits.
pub fn format_ms(ms: u64) -> (r: Vec<u16>)
    ensures
        r@ == decimal(ms as nat),
{
    let mut out: Vec<u16> = Vec::new();
    push_decimal(ms, &mut out);
    assert(out@ =~= decimal(ms as nat));
    out
}

/// A threshold written into the field reads back as the same threshold.
pub proof fn lemma_threshold_text_round_trip(ms: u64)
    ensures
        spec_parse_threshold(decimal(ms as nat)) == ms,
{
    let d = decimal(ms as nat);
    lemma_decimal_digits(ms as nat);
    assert(trim_start(d) == d);
    assert(trim_end(d) == d);
}

/// The controls' state showing the given settings: the check boxes, the radio
/// buttons of the Japanese mode and of the switch mode, and the threshold.
pub open spec fn spec_controls_for(c: Config) -> (bool, bool, bool, bool, bool, bool, bool, bool, bool, Seq<u16>) {
    (
        c.chinese_lock_enabled,
        c.japanese_lock_enabled,
        c.spec_capslock_active(),
        c.autostart,
        c.japanese_mode == JapaneseMode::Hiragana,
        c.japanese_mode == JapaneseMode::Katakana,
        c.japanese_mode == JapaneseMode::FullWidthAlnum,
        c.capslock_short_action != crate::config::CapslockAction::Cycle,
        c.capslock_short_action == crate::config::CapslockAction::Cycle,
        decimal(c.capslock_longpress_ms as nat),
    )
}

pub open spec fn controls_view(k: SettingsControls) -> (bool, bool, bool, bool, bool, bool, bool, bool, bool, Seq<u16>) {
    (
        k.chinese,
        k.japanese,
        k.capslock,
        k.autostart,
        k.hiragana,
        k.katakana,
        k.full_width,
        k.cjk_us,
        k.cycle,
        k.longpress_text@,
    )
}

/// What the controls show for the settings.
pub fn load_config_to_controls(config: &Config) -> (r: SettingsControls)
    ensures
        controls_view(r) == spec_controls_for(*config),
{
    let mode = config.switch_mode();
    SettingsControls {
        chinese: config.chinese_lock_enabled,
        japanese: config.japanese_lock_enabled,
        capslock: config.capslock_active(),
        autostart: config.autostart,
        hiragana: config.japanese_mode == JapaneseMode::Hiragana,
        katakana: config.japanese_mode == JapaneseMode::Katakana,
        full_width: config.japanese_mode == JapaneseMode::FullWidthAlnum,
        cjk_us: mode == CapslockSwitchMode::CjkUs,
        cycle: mode == CapslockSwitchMode::Cycle,
        longpress_text: format_ms(config.capslock_longpress_ms),
    }
}

/// The Japanese mode the radio buttons select (the first checked one; the
/// last when none is).
pub open spec fn selected_mode(k: SettingsControls) -> JapaneseMode {
    if k.hiragana {
        JapaneseMode::Hiragana
    } else if k.katakana {
        JapaneseMode::Katakana
    } else {
        JapaneseMode::FullWidthAlnum
    }
}

/// The switch mode the radio buttons select.
pub open spec fn selected_switch(k: SettingsControls) -> CapslockSwitchMode {
    if k.cycle {
        CapslockSwitchMode::Cycle
    } else {
        CapslockSwitchMode::CjkUs
    }
}

/// Takes the controls' state into the settings (OK button): the check boxes,
/// the selected Japanese mode, the CapsLock switch (on/off with its mode) and
/// the threshold field. The caller then saves the settings and updates the
/// start-with-Windows entry.
pub fn apply_controls(config: &mut Config, controls: &SettingsControls)
    ensures
        final(config).chinese_lock_enabled == controls.chinese,
        final(config).japanese_lock_enabled == controls.japanese,
        final(config).japanese_mode == selected_mode(*controls),
        final(config).capslock_short_action == switch_actions(
            controls.capslock,
            selected_switch(*controls),
        ).0,
        final(config).capslock_long_action == switch_actions(
            controls.capslock,
            selected_switch(*controls),
        ).1,
        final(config).capslock_longpress_ms == spec_parse_threshold(controls.longpress_text@),
        final(config).autostart == controls.autostart,
        final(config).capslock_switch_enabled == old(config).capslock_switch_enabled,
        final(config).capslock_switch_mode == old(config).capslock_switch_mode,
{
    let mode = if controls.hiragana {
        JapaneseMode::Hiragana
    } else if controls.katakana {
        JapaneseMode::Katakana
    } else {
        JapaneseMode::FullWidthAlnum
    };
    let caps_mode = if controls.cycle {
        CapslockSwitchMode::Cycle
    } else {
        CapslockSwitchMode::CjkUs
    };
    let lp = parse_threshold(&controls.longpress_text);
    config.chinese_lock_enabled = controls.chinese;
    config.japanese_lock_enabled = controls.japanese;
    config.japanese_mode = mode;
    config.set_capslock_switch(controls.capslock, caps_mode);
    config.capslock_longpress_ms = lp;
    config.autostart = controls.autostart;
}

/// Opening the settings window and pressing OK without touching anything keeps
/// the check boxes' settings, the Japanese mode, the threshold, and whether
/// CapsLock is intercepted.
pub proof fn lemma_settings_round_trip(c: Config, k: SettingsControls)
    requires
        controls_view(k) == spec_controls_for(c),
    ensures
        k.chinese == c.chinese_lock_enabled,
        k.japanese == c.japanese_lock_enabled,
        k.autostart == c.autostart,
        selected_mode(k) == c.japanese_mode,
        spec_parse_threshold(k.longpress_text@) == c.capslock_longpress_ms,
        (Config {
            capslock_short_action: switch_actions(k.capslock, selected_switch(k)).0,
            capslock_long_action: switch_actions(k.capslock, selected_switch(k)).1,
            ..c
        }).spec_capslock_active() == c.spec_capslock_active(),
{
    lemma_threshold_text_round_trip(c.capslock_longpress_ms);
}

/// The switch-mode radio buttons show the short action: for a CJK/US short
/// press the CJK/US button is checked and the cycling one not, for a cycling
/// short press the reverse. Pressing OK without changes then keeps the short
/// and long actions whenever the window can show them (a switching short
/// press with a real CapsLock on long press, or a real CapsLock on both).
pub proof fn lemma_settings_keep_actions(c: Config, k: SettingsControls)
    requires
        controls_view(k) == spec_controls_for(c),
    ensures
        c.capslock_short_action == crate::config::CapslockAction::CjkUs ==> k.cjk_us && !k.cycle,
        c.capslock_short_action == crate::config::CapslockAction::Cycle ==> !k.cjk_us && k.cycle,
        c.capslock_long_action == crate::config::CapslockAction::CapsLock ==> switch_actions(
            k.capslock,
            selected_switch(k),
        ) == (c.capslock_short_action, c.capslock_long_action),
{
    crate::config::lemma_switch_actions_cases(selected_switch(k));
}

/// The Japanese mode radio buttons show the mode: exactly its button is checked.
/// Reading them back, the checked button gives its mode when one button is
/// checked (the first checked one when several are, full-width alphanumerics
/// when none is).
pub proof fn lemma_mode_radios(c: Config, k: SettingsControls)
    ensures
        controls_view(k) == spec_controls_for(c) ==> (k.hiragana == (c.japanese_mode
            == JapaneseMode::Hiragana) && k.katakana == (c.japanese_mode == JapaneseMode::Katakana)
            && k.full_width == (c.japanese_mode == JapaneseMode::FullWidthAlnum)),
        k.hiragana ==> selected_mode(k) == JapaneseMode::Hiragana,
        !k.hiragana && k.katakana ==> selected_mode(k) == JapaneseMode::Katakana,
        !k.hiragana && !k.katakana ==> selected_mode(k) == JapaneseMode::FullWidthAlnum,
        k.cycle ==> selected_switch(k) == CapslockSwitchMode::Cycle,
        !k.cycle ==> selected_switch(k) == CapslockSwitchMode::CjkUs,
{
}

/// The threshold field ignores white space around the number and accepts a
/// leading plus sign: a space, an optional '+', the digits of `ms` and a space
/// read as `ms`. Text holding anything but digits after the optional sign reads
/// as the default 300 ms.
pub proof fn lemma_threshold_text_lenient(ms: u64, plus: bool, text: Seq<u16>, bad: int)
    ensures
        ({
            let body = if plus {
                seq![0x2Bu16] + decimal(ms as nat)
            } else {
                decimal(ms as nat)
            };
            spec_parse_threshold(seq![0x20u16] + body + seq![0x20u16]) == ms
        }),
        0 <= bad < text.len() && !(0x30 <= text[bad] <= 0x39) && text[bad] != 0x2B && !is_ws(
            text[bad],
        ) ==> spec_parse_threshold(text) == DEFAULT_LONGPRESS_MS,
{
    let d = decimal(ms as nat);
    lemma_decimal_digits(ms as nat);
    let body = if plus {
        seq![0x2Bu16] + d
    } else {
        d
    };
    let s = seq![0x20u16] + body + seq![0x20u16];
    assert(s.drop_first() =~= body + seq![0x20u16]);
    assert(trim_start(s) == trim_start(body + seq![0x20u16]));
    assert((body + seq![0x20u16])[0] == body[0]);
    assert(trim_start(body + seq![0x20u16]) == body + seq![0x20u16]);
    assert((body + seq![0x20u16]).drop_last() =~= body);
    assert(trim_end(body) == body);
    assert(trim(s) == body);
    if plus {
        assert(body.drop_first() =~= d);
    }
    if 0 <= bad < text.len() && !(0x30 <= text[bad] <= 0x39) && text[bad] != 0x2B && !is_ws(
        text[bad],
    ) {
        lemma_bad_unit_stays(text, bad);
    }
}

/// A unit that is neither white space, a digit nor '+' survives trimming and
/// makes the text not a number.
proof fn lemma_bad_unit_stays(text: Seq<u16>, bad: int)
    requires
        0 <= bad < text.len(),
        !(0x30 <= text[bad] <= 0x39),
        text[bad] != 0x2B,
        !is_ws(text[bad]),
    ensures
        parse_u64(trim(text)) is None,
{
    let kb = lemma_trim_start_is_suffix(text, bad);
    let b = trim_start(text);
    lemma_trim_end_is_prefix(b, kb);
    let tr = trim(text);
    assert(tr[kb] == text[bad]);
    let body = if tr.len() > 0 && tr[0] == 0x2B {
        tr.drop_first()
    } else {
        tr
    };
    if tr.len() > 0 && tr[0] == 0x2B {
        assert(kb != 0);
        assert(body[kb - 1] == tr[kb]);
        assert(!is_digit(body[kb - 1]));
    } else {
        assert(!is_digit(body[kb]));
    }
}

/// Trimming the start keeps a non-white unit at a shifted index.
proof fn lemma_trim_start_is_suffix(s: Seq<u16>, i: int) -> (r: int)
    requires
        0 <= i < s.len(),
        !is_ws(s[i]),
    ensures
        0 <= r < trim_start(s).len(),
        trim_start(s)[r] == s[i],
    decreases s.len(),
{
    if s.len() > 0 && is_ws(s[0]) {
        assert(i > 0);
        lemma_trim_start_is_suffix(s.drop_first(), i - 1)
    } else {
        i
    }
}

/// Trimming the end keeps a non-white unit at the same index.
proof fn lemma_trim_end_is_prefix(s: Seq<u16>, i: int)
    requires
        0 <= i < s.len(),
        !is_ws(s[i]),
    ensures
        i < trim_end(s).len(),
        trim_end(s)[i] == s[i],
    decreases s.len(),
{
    if s.len() > 0 && is_ws(s[s.len() - 1]) {
        assert(i < s.len() - 1);
        lemma_trim_end_is_prefix(s.drop_last(), i);
    }
}

} // verus!
