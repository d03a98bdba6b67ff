//! TSF compartment backend (not implemented yet).
//!
//! Recent Microsoft IMEs sometimes ignore IMM32's `WM_IME_CONTROL`; the proper
//! control is a TSF compartment (`GUID_COMPARTMENT_KEYBOARD_INPUTMODE_CONVERSION`
//! for the conversion mode, `GUID_COMPARTMENT_KEYBOARD_OPENCLOSE` for open/close),
//! set per thread on the focused thread. Until it is written, IMM32 is used.

use vstd::prelude::*;

verus! {

/// Whether the TSF backend is available. It is not yet, so callers use IMM32.
pub fn available() -> (r: bool)
    ensures
        !r,
{
    false
}

} // verus!
