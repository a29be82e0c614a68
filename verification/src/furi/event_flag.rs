//! Options for waiting on Furi event flags.

use vstd::prelude::*;

verus! {

/// Wait for any of the flags.
pub const FLAG_WAIT_ANY: u32 = 0;
/// Wait for all of the flags.
pub const FLAG_WAIT_ALL: u32 = 1;
/// Do not clear the flags once the wait is over.
pub const FLAG_NO_CLEAR: u32 = 2;

/// The option word of a wait: for all flags or any, and whether to clear the flags.
pub open spec fn spec_wait_options(all: bool, clear: bool) -> u32 {
    ((if all { FLAG_WAIT_ALL } else { FLAG_WAIT_ANY }) + (if clear { 0u32 } else { FLAG_NO_CLEAR })) as u32
}

/// Builds the option word of a wait on the flags: [`FLAG_WAIT_ALL`] when `all`, else
/// [`FLAG_WAIT_ANY`], with [`FLAG_NO_CLEAR`] added unless `clear`.
pub fn wait_options(all: bool, clear: bool) -> (r: u32)
    ensures
        r == spec_wait_options(all, clear),
{
    let mut options: u32 = if all { FLAG_WAIT_ALL } else { FLAG_WAIT_ANY };
    if !clear {
        assert(0u32 | 2u32 == 2u32 && 1u32 | 2u32 == 3u32) by (bit_vector);
        options = options | FLAG_NO_CLEAR;
    }
    options
}

} // verus!
