//! Furi kernel primitives.

use vstd::prelude::*;

use crate::furi::status::Error;

verus! {

/// Kernel lock state.
#[derive(Clone, Copy, Debug, PartialEq, Eq, Structural)]
pub enum LockState {
    /// Normal scheduling.
    Unlocked,
    /// Scheduling paused.
    Locked,
}

impl LockState {
    /// The kernel's number for this lock state.
    pub open spec fn raw(self) -> i32 {
        match self {
            LockState::Unlocked => 0,
            LockState::Locked => 1,
        }
    }

    /// The lock state that the kernel's number `value` stands for: any non-zero value is
    /// taken as [`LockState::Locked`].
    pub open spec fn from_raw(value: i32) -> LockState {
        if value == 0 {
            LockState::Unlocked
        } else {
            LockState::Locked
        }
    }
}

impl From<i32> for LockState {
    fn from(value: i32) -> (r: LockState) {
        match value {
            0 => LockState::Unlocked,
            // Any non-zero value is taken as `Locked`.
            _ => LockState::Locked,
        }
    }
}

impl vstd::std_specs::convert::FromSpecImpl<i32> for LockState {
    open spec fn obeys_from_spec() -> bool {
        true
    }

    open spec fn from_spec(value: i32) -> LockState {
        LockState::from_raw(value)
    }
}

impl From<LockState> for i32 {
    fn from(value: LockState) -> (r: i32) {
        match value {
            LockState::Unlocked => 0,
            LockState::Locked => 1,
        }
    }
}

impl vstd::std_specs::convert::FromSpecImpl<LockState> for i32 {
    open spec fn obeys_from_spec() -> bool {
        true
    }

    open spec fn from_spec(value: LockState) -> i32 {
        value.raw()
    }
}

/// A lock state converted to the kernel's number and back is the same state; a kernel
/// number converted to a state and back is `0` or `1`, and stays `0` exactly when it was.
pub proof fn lemma_lock_state_round_trip(state: LockState, value: i32)
    ensures
        LockState::from_raw(state.raw()) == state,
        (LockState::from_raw(value).raw() == 0) == (value == 0),
{
}

/// What a kernel lock call gives for the number it returned: a negative number is the
/// status word of an error, any other number is the previous lock state.
pub open spec fn spec_lock_result(status: i32) -> Result<LockState, Error> {
    if status < 0 {
        Err(Error::spec_from_code((status + 0x1_0000_0000) as u32))
    } else {
        Ok(LockState::from_raw(status))
    }
}

/// Reads the number a kernel lock, unlock or restore call returned.
pub fn lock_result(status: i32) -> (r: Result<LockState, Error>)
    ensures
        r == spec_lock_result(status),
{
    if status < 0 {
        let code: u32 = (status as i64 + 0x1_0000_0000i64) as u32;
        Err(Error::from(code))
    } else {
        Ok(LockState::from(status))
    }
}

/// The firmware's numbers for every [`LockState`], one by one, as the firmware's
/// enumeration lists them.
pub proof fn lemma_lock_state_numbers()
    ensures
        LockState::Unlocked.raw() == 0,
        LockState::Locked.raw() == 1,
{
}

} // verus!
