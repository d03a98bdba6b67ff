//! Tray menu texts. The tray icon and its native menu live outside this crate.

use vstd::prelude::*;
use crate::config::JapaneseMode;

verus! {

/// The Japanese lock menu item's text for a mode.
pub fn japanese_label(mode: JapaneseMode) -> (r: &'static str)
    ensures
        r@ == (match mode {
            JapaneseMode::Hiragana => "日文锁平假名"@,
            JapaneseMode::Katakana => "日文锁片假名"@,
            JapaneseMode::FullWidthAlnum => "日文锁全角英数"@,
        }),
{
    match mode {
        JapaneseMode::Hiragana => "日文锁平假名",
        JapaneseMode::Katakana => "日文锁片假名",
        JapaneseMode::FullWidthAlnum => "日文锁全角英数",
    }
}

} // verus!
