//! Keyboard layouts and the languages they stand for.
//!
//! A layout handle (HKL) is held by its numeric value; its low 16 bits are the
//! primary language id.

use vstd::prelude::*;

verus! {

/// Simplified Chinese primary language id.
pub const LANG_ZH_CN: u16 = 0x0804;

/// Japanese primary language id.
pub const LANG_JA: u16 = 0x0411;

/// English (United States) primary language id.
pub const LANG_EN_US: u16 = 0x0409;

/// A keyboard layout handle, by its numeric value.
#[derive(Debug, Clone, Copy, PartialEq, Eq, Structural)]
pub struct Hkl(pub usize);

/// The primary language id of a layout: its low 16 bits.
pub open spec fn lang_of(hkl: Hkl) -> u16 {
    (hkl.0 % 0x10000) as u16
}

/// A Chinese or Japanese layout.
pub open spec fn is_cjk(hkl: Hkl) -> bool {
    lang_of(hkl) == LANG_ZH_CN || lang_of(hkl) == LANG_JA
}

/// A layout whose language is not English (US).
pub open spec fn is_non_english(hkl: Hkl) -> bool {
    lang_of(hkl) != LANG_EN_US
}

/// The first Chinese or Japanese layout of `s`, if any.
pub open spec fn first_cjk(s: Seq<Hkl>) -> Option<Hkl>
    decreases s.len(),
{
    if s.len() == 0 {
        None
    } else if is_cjk(s[0]) {
        Some(s[0])
    } else {
        first_cjk(s.drop_first())
    }
}

/// The first layout of `s` that is not English (US), if any.
pub open spec fn first_non_english(s: Seq<Hkl>) -> Option<Hkl>
    decreases s.len(),
{
    if s.len() == 0 {
        None
    } else if is_non_english(s[0]) {
        Some(s[0])
    } else {
        first_non_english(s.drop_first())
    }
}

/// The layout a two-state switch goes to by default: the first Chinese or
/// Japanese layout, else the first layout that is not English (US).
pub open spec fn spec_pick_non_english(s: Seq<Hkl>) -> Option<Hkl> {
    match first_cjk(s) {
        Some(h) => Some(h),
        None => first_non_english(s),
    }
}

/// Takes the primary language id from a layout handle (its low 16 bits).
pub fn primary_lang(hkl: Hkl) -> (r: u16)
    ensures
        r == lang_of(hkl),
{
    (hkl.0 % 0x10000) as u16
}

/// Whether a layout is Chinese or Japanese.
fn is_cjk_layout(hkl: Hkl) -> (r: bool)
    ensures
        r == is_cjk(hkl),
{
    let l = primary_lang(hkl);
    l == LANG_ZH_CN || l == LANG_JA
}

/// Picks, from the installed layouts, one that is not English (CJK first), as
/// the default target of the two-state switch.
pub fn pick_non_english_layout(layouts: &Vec<Hkl>) -> (r: Option<Hkl>)
    ensures
        r == spec_pick_non_english(layouts@),
{
    let ghost s = layouts@;
    let n = layouts.len();
    assert(s.skip(0) =~= s);
    let mut i: usize = 0;
    while i < n
        invariant
            n == s.len(),
            s == layouts@,
            i <= n,
            first_cjk(s) == first_cjk(s.skip(i as int)),
        decreases n - i,
    {
        assert(s.skip(i as int)[0] == s[i as int]);
        if is_cjk_layout(layouts[i]) {
            return Some(layouts[i]);
        }
        assert(s.skip(i as int).drop_first() =~= s.skip(i + 1));
        i = i + 1;
    }
    assert(s.skip(n as int) =~= Seq::<Hkl>::empty());
    let mut j: usize = 0;
    while j < n
        invariant
            n == s.len(),
            s == layouts@,
            j <= n,
            first_cjk(s) is None,
            first_non_english(s) == first_non_english(s.skip(j as int)),
        decreases n - j,
    {
        assert(s.skip(j as int)[0] == s[j as int]);
        if primary_lang(layouts[j]) != LANG_EN_US {
            return Some(layouts[j]);
        }
        assert(s.skip(j as int).drop_first() =~= s.skip(j + 1));
        j = j + 1;
    }
    assert(s.skip(n as int) =~= Seq::<Hkl>::empty());
    None
}

proof fn lemma_first_cjk(s: Seq<Hkl>)
    ensures
        first_cjk(s) matches Some(h) ==> exists|i: int|
            0 <= i < s.len() && s[i] == h && is_cjk(h) && forall|j: int|
                0 <= j < i ==> !is_cjk(#[trigger] s[j]),
        first_cjk(s) is None <==> forall|i: int| 0 <= i < s.len() ==> !is_cjk(#[trigger] s[i]),
    decreases s.len(),
{
    if s.len() > 0 {
        let t = s.drop_first();
        lemma_first_cjk(t);
        if is_cjk(s[0]) {
            assert(s[0] == s[0] && forall|j: int| 0 <= j < 0 ==> !is_cjk(#[trigger] s[j]));
        } else {
            if let Some(h) = first_cjk(t) {
                let i = choose|i: int|
                    0 <= i < t.len() && t[i] == h && is_cjk(h) && forall|j: int|
                        0 <= j < i ==> !is_cjk(#[trigger] t[j]);
                assert(s[i + 1] == h);
                assert forall|j: int| 0 <= j < i + 1 implies !is_cjk(#[trigger] s[j]) by {
                    if j > 0 {
                        assert(s[j] == t[j - 1]);
                    }
                }
            } else {
                assert forall|i: int| 0 <= i < s.len() implies !is_cjk(#[trigger] s[i]) by {
                    if i > 0 {
                        assert(s[i] == t[i - 1]);
                    }
                }
            }
            if forall|i: int| 0 <= i < s.len() ==> !is_cjk(#[trigger] s[i]) {
                assert forall|i: int| 0 <= i < t.len() implies !is_cjk(#[trigger] t[i]) by {
                    assert(t[i] == s[i + 1]);
                }
            }
        }
    }
}

proof fn lemma_first_non_english(s: Seq<Hkl>)
    ensures
        first_non_english(s) matches Some(h) ==> exists|i: int|
            0 <= i < s.len() && s[i] == h && is_non_english(h),
        first_non_english(s) is None <==> forall|i: int|
            0 <= i < s.len() ==> !is_non_english(#[trigger] s[i]),
    decreases s.len(),
{
    if s.len() > 0 {
        let t = s.drop_first();
        lemma_first_non_english(t);
        if !is_non_english(s[0]) {
            if let Some(h) = first_non_english(t) {
                let i = choose|i: int| 0 <= i < t.len() && t[i] == h && is_non_english(h);
                assert(s[i + 1] == h);
            } else {
                assert forall|i: int| 0 <= i < s.len() implies !is_non_english(#[trigger] s[i]) by {
                    if i > 0 {
                        assert(s[i] == t[i - 1]);
                    }
                }
            }
            if forall|i: int| 0 <= i < s.len() ==> !is_non_english(#[trigger] s[i]) {
                assert forall|i: int| 0 <= i < t.len() implies !is_non_english(#[trigger] t[i]) by {
                    assert(t[i] == s[i + 1]);
                }
            }
        }
    }
}

/// The default target of the two-state switch: when a Chinese (0x0804) or
/// Japanese (0x0411) layout is installed, the first of them; otherwise, when a
/// layout other than English (0x0409) is installed, one of those; when only
/// English layouts are installed, none. Whatever is picked is installed and is
/// not English.
pub proof fn lemma_pick_rules(s: Seq<Hkl>)
    ensures
        spec_pick_non_english(s) matches Some(h) ==> s.contains(h) && h.0 % 0x10000 != 0x0409,
        (exists|i: int|
            0 <= i < s.len() && (#[trigger] s[i].0 % 0x10000 == 0x0804 || s[i].0 % 0x10000
                == 0x0411)) ==> (spec_pick_non_english(s) matches Some(h) && exists|i: int|
            0 <= i < s.len() && s[i] == h && (h.0 % 0x10000 == 0x0804 || h.0 % 0x10000 == 0x0411)
                && forall|j: int|
                0 <= j < i ==> !(#[trigger] s[j].0 % 0x10000 == 0x0804 || s[j].0 % 0x10000
                    == 0x0411)),
        (exists|i: int| 0 <= i < s.len() && #[trigger] s[i].0 % 0x10000 != 0x0409)
            <==> spec_pick_non_english(s) is Some,
{
    lemma_first_cjk(s);
    lemma_first_non_english(s);
    if let Some(h) = spec_pick_non_english(s) {
        if let Some(g) = first_cjk(s) {
            let i = choose|i: int|
                0 <= i < s.len() && s[i] == g && is_cjk(g) && forall|j: int|
                    0 <= j < i ==> !is_cjk(#[trigger] s[j]);
            assert(s.contains(h));
            assert forall|j: int| 0 <= j < i implies !(#[trigger] s[j].0 % 0x10000 == 0x0804
                || s[j].0 % 0x10000 == 0x0411) by {
                assert(!is_cjk(s[j]));
            }
        } else {
            let i = choose|i: int| 0 <= i < s.len() && s[i] == h && is_non_english(h);
            assert(s.contains(h));
            if exists|i: int|
                0 <= i < s.len() && (#[trigger] s[i].0 % 0x10000 == 0x0804 || s[i].0 % 0x10000
                    == 0x0411) {
                let k = choose|i: int|
                    0 <= i < s.len() && (#[trigger] s[i].0 % 0x10000 == 0x0804 || s[i].0 % 0x10000
                        == 0x0411);
                assert(is_cjk(s[k]));
            }
        }
    } else {
        if exists|i: int| 0 <= i < s.len() && #[trigger] s[i].0 % 0x10000 != 0x0409 {
            let k = choose|i: int| 0 <= i < s.len() && #[trigger] s[i].0 % 0x10000 != 0x0409;
            assert(is_non_english(s[k]));
        }
        if exists|i: int|
            0 <= i < s.len() && (#[trigger] s[i].0 % 0x10000 == 0x0804 || s[i].0 % 0x10000
                == 0x0411) {
            let k = choose|i: int|
                0 <= i < s.len() && (#[trigger] s[i].0 % 0x10000 == 0x0804 || s[i].0 % 0x10000
                    == 0x0411);
            assert(is_cjk(s[k]));
        }
    }
}

} // verus!
