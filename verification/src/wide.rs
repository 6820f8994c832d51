//! Wide strings: paths as 16-bit code units, closed by a zero unit for the
//! platform's native calls.

use vstd::prelude::*;

verus! {

/// Whether `units` is a wide string as the native calls expect it: at least
/// the terminator, and the terminator is zero.
pub open spec fn is_wide_string(units: Seq<u16>) -> bool {
    units.len() >= 1 && units.last() == 0
}

/// Closes the code units of a path with the zero terminator.
pub fn null_terminate(units: &[u16]) -> (wide: Vec<u16>)
    ensures
        wide@ == units@.push(0),
        is_wide_string(wide@),
{
    let mut wide: Vec<u16> = Vec::new();
    let mut i: usize = 0;
    while i < units.len()
        invariant
            i <= units.len(),
            wide@ == units@.take(i as int),
        decreases units.len() - i,
    {
        wide.push(units[i]);
        i = i + 1;
    }
    assert(units@.take(units@.len() as int) == units@);
    wide.push(0);
    wide
}

} // verus!
