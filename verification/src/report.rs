//! Encoding of the sweep tables' yes/no columns.

use vstd::prelude::*;

verus! {

/// A yes/no column of a sweep table (`reverted`, `is_optimal`) is written as
/// `1` for yes and `0` for no.
pub fn csv_flag(b: bool) -> (f: u8)
    ensures
        f == (if b { 1u8 } else { 0u8 }),
        f <= 1,
{
    if b {
        1
    } else {
        0
    }
}

} // verus!
