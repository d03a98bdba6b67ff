//! IMM32 backend decisions. The messages themselves (`WM_IME_CONTROL` sent to
//! the default IME window) are sent by the caller; the functions here decide
//! which to send so that a mode already in place is left untouched.

use vstd::prelude::*;

verus! {

/// Whether the IME must be opened, given its open status as read back (absent
/// when the window has no IME window): anything but "open" is opened.
pub fn needs_open(status: Option<bool>) -> (r: bool)
    ensures
        r == (status != Some(true)),
{
    match status {
        Some(true) => false,
        _ => true,
    }
}

/// Whether the conversion mode must be set, given the mode as read back: only
/// when it differs from the target.
pub fn needs_conversion(current: Option<u32>, target: u32) -> (r: bool)
    ensures
        r == (current != Some(target)),
{
    match current {
        Some(m) => m != target,
        None => true,
    }
}

} // verus!
