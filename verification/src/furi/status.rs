//! Status codes returned by Furi calls.

use vstd::prelude::*;

verus! {

/// Error codes returned from Furi calls. The firmware returns a status as a 32-bit word
/// that reads as a signed number: zero is success, `-1` to `-6` are the errors below.
#[derive(Clone, Copy, Debug, PartialEq, Eq, Structural)]
pub enum Error {
    /// General runtime error (`-1`).
    Generic,
    /// Timeout was exceeded (`-2`).
    Timeout,
    /// Resource not available (`-3`).
    Resource,
    /// Parameter error (`-4`).
    Parameter,
    /// System is out of memory (`-5`).
    NoMemory,
    /// Not allowed in interrupt context (`-6`).
    ISR,
    /// Unrecognized error code.
    Other(u32),
}

/// The 32-bit word of the status `-n`, for `0 < n`.
pub open spec fn negative_code(n: u32) -> u32
    recommends
        0 < n,
{
    (0x1_0000_0000 - n) as u32
}

impl Error {
    /// The error that the status word `code` stands for.
    pub open spec fn spec_from_code(code: u32) -> Error {
        if code == negative_code(1) {
            Error::Generic
        } else if code == negative_code(2) {
            Error::Timeout
        } else if code == negative_code(3) {
            Error::Resource
        } else if code == negative_code(4) {
            Error::Parameter
        } else if code == negative_code(5) {
            Error::NoMemory
        } else if code == negative_code(6) {
            Error::ISR
        } else {
            Error::Other(code)
        }
    }

    /// The status word of this error.
    pub open spec fn code(self) -> u32 {
        match self {
            Error::Generic => negative_code(1),
            Error::Timeout => negative_code(2),
            Error::Resource => negative_code(3),
            Error::Parameter => negative_code(4),
            Error::NoMemory => negative_code(5),
            Error::ISR => negative_code(6),
            Error::Other(code) => code,
        }
    }
}

impl From<u32> for Error {
    fn from(code: u32) -> (r: Error) {
        match code {
            0xFFFF_FFFF => Error::Generic,
            0xFFFF_FFFE => Error::Timeout,
            0xFFFF_FFFD => Error::Resource,
            0xFFFF_FFFC => Error::Parameter,
            0xFFFF_FFFB => Error::NoMemory,
            0xFFFF_FFFA => Error::ISR,
            _ => Error::Other(code),
        }
    }
}

impl vstd::std_specs::convert::FromSpecImpl<u32> for Error {
    open spec fn obeys_from_spec() -> bool {
        true
    }

    open spec fn from_spec(code: u32) -> Error {
        Error::spec_from_code(code)
    }
}

/// Furi result type.
pub type Result<T> = core::result::Result<T, Error>;

/// What a call that reports only a status gives: success for zero, else the error that
/// the word stands for.
pub open spec fn spec_status_result(code: u32) -> Result<()> {
    if code == 0 {
        Ok(())
    } else {
        Err(Error::spec_from_code(code))
    }
}

/// Reads the status word of a call that reports only a status.
pub fn status_result(code: u32) -> (r: Result<()>)
    ensures
        r == spec_status_result(code),
{
    if code == 0 {
        Ok(())
    } else {
        Err(Error::from(code))
    }
}

/// Every status word survives the trip to an [`Error`] and back; an error that is not an
/// [`Error::Other`] hiding a known code survives the trip to its word and back.
pub proof fn lemma_error_code_round_trip(code: u32, e: Error)
    ensures
        Error::spec_from_code(code).code() == code,
        !(e matches Error::Other(c) && Error::spec_from_code(c) != Error::Other(c)) ==> Error::spec_from_code(
            e.code(),
        ) == e,
{
}

/// The status words of the errors, one by one: `-1` to `-6` read as 32-bit words.
pub proof fn lemma_error_codes()
    ensures
        Error::Generic.code() == 0xFFFF_FFFFu32,
        Error::Timeout.code() == 0xFFFF_FFFEu32,
        Error::Resource.code() == 0xFFFF_FFFDu32,
        Error::Parameter.code() == 0xFFFF_FFFCu32,
        Error::NoMemory.code() == 0xFFFF_FFFBu32,
        Error::ISR.code() == 0xFFFF_FFFAu32,
{
}

} // verus!
