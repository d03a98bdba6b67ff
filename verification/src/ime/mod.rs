//! Controlling the IME's mode.
//!
//! The IMM32 backend (`WM_IME_CONTROL`) does the work; a TSF compartment
//! backend is the planned fallback (see `tsf`).

pub mod imm32;
pub mod tsf;

use vstd::prelude::*;
use crate::config::JapaneseMode;

verus! {

/// IME conversion-mode flags (the IMM32 `IME_CMODE_*` values).
pub const IME_CMODE_ALPHANUMERIC: u32 = 0x0000;
pub const IME_CMODE_NATIVE: u32 = 0x0001;
pub const IME_CMODE_KATAKANA: u32 = 0x0002;
pub const IME_CMODE_FULLSHAPE: u32 = 0x0008;

/// The conversion-mode flags of a Japanese mode: hiragana is native + full
/// shape, katakana adds the katakana flag, full-width alphanumerics is full
/// shape alone.
pub open spec fn spec_japanese_conversion_mode(mode: JapaneseMode) -> u32 {
    match mode {
        JapaneseMode::Hiragana => 0x9,
        JapaneseMode::Katakana => 0xB,
        JapaneseMode::FullWidthAlnum => 0x8,
    }
}

/// Maps the configured Japanese mode to conversion-mode flags.
pub fn japanese_conversion_mode(mode: JapaneseMode) -> (r: u32)
    ensures
        r == spec_japanese_conversion_mode(mode),
{
    match mode {
        JapaneseMode::Hiragana => {
            assert(IME_CMODE_NATIVE | IME_CMODE_FULLSHAPE == 0x9u32) by (bit_vector);
            IME_CMODE_NATIVE | IME_CMODE_FULLSHAPE
        },
        JapaneseMode::Katakana => {
            assert(IME_CMODE_NATIVE | IME_CMODE_KATAKANA | IME_CMODE_FULLSHAPE == 0xBu32)
                by (bit_vector);
            IME_CMODE_NATIVE | IME_CMODE_KATAKANA | IME_CMODE_FULLSHAPE
        },
        JapaneseMode::FullWidthAlnum => {
            assert(IME_CMODE_ALPHANUMERIC | IME_CMODE_FULLSHAPE == 0x8u32) by (bit_vector);
            IME_CMODE_ALPHANUMERIC | IME_CMODE_FULLSHAPE
        },
    }
}

/// Every Japanese mode is full shape, only hiragana and katakana are native,
/// only katakana has the katakana flag, and distinct modes give distinct flags.
pub proof fn lemma_japanese_modes_distinct(a: JapaneseMode, b: JapaneseMode)
    ensures
        spec_japanese_conversion_mode(a) & IME_CMODE_FULLSHAPE != 0,
        (spec_japanese_conversion_mode(a) & IME_CMODE_NATIVE != 0) == (a != JapaneseMode::FullWidthAlnum),
        (spec_japanese_conversion_mode(a) & IME_CMODE_KATAKANA != 0) == (a == JapaneseMode::Katakana),
        spec_japanese_conversion_mode(a) == spec_japanese_conversion_mode(b) ==> a == b,
{
    assert(0x9u32 & 0x8u32 != 0 && 0xBu32 & 0x8u32 != 0 && 0x8u32 & 0x8u32 != 0) by (bit_vector);
    assert(0x9u32 & 0x1u32 != 0 && 0xBu32 & 0x1u32 != 0 && 0x8u32 & 0x1u32 == 0) by (bit_vector);
    assert(0x9u32 & 0x2u32 == 0 && 0xBu32 & 0x2u32 != 0 && 0x8u32 & 0x2u32 == 0) by (bit_vector);
}

} // verus!
