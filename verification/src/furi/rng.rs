//! Hardware randomness.

use vstd::prelude::*;

verus! {

/// A random number generator that retrieves randomness from the Flipper Zero hardware.
///
/// This is a zero-sized struct. It can be freely constructed with `HwRng`.
#[derive(Clone, Copy, Debug, Default)]
pub struct HwRng;

} // verus!
