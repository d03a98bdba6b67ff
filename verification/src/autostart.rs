//! Start with Windows: the `HKCU\Software\Microsoft\Windows\CurrentVersion\Run`
//! entry. The registry calls live outside this crate; this module prepares the
//! value's data.

use vstd::prelude::*;

verus! {

/// The registry data of a UTF-16 string value: each unit as two bytes, low byte
/// first (the in-memory layout of the units on Windows).
pub fn utf16_le_bytes(units: &Vec<u16>) -> (r: Vec<u8>)
    requires
        units@.len() * 2 <= usize::MAX,
    ensures
        r@.len() == units@.len() * 2,
        forall|i: int|
            0 <= i < units@.len() ==> r@[2 * i] == units@[i] % 256 && r@[2 * i + 1] == units@[i]
                / 256,
{
    let mut out: Vec<u8> = Vec::new();
    let n = units.len();
    let mut i: usize = 0;
    while i < n
        invariant
            n == units@.len(),
            i <= n,
            out@.len() == 2 * i,
            forall|k: int|
                0 <= k < i ==> out@[2 * k] == units@[k] % 256 && out@[2 * k + 1] == units@[k]
                    / 256,
        decreases n - i,
    {
        let u = units[i];
        out.push((u % 256) as u8);
        out.push((u / 256) as u8);
        i = i + 1;
    }
    out
}

} // verus!
