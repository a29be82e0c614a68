//! SPI buses of the Flipper Zero: which bus a sub device sits on, and the checks around
//! a transfer.

use vstd::prelude::*;

verus! {

/// An SPI sub device inside the Flipper Zero.
#[derive(Clone, Copy, Debug, PartialEq, Eq, Structural)]
pub enum Internal {
    /// The SubGhz chip (a CC1101).
    SubGhz,
    /// The NFC chip (an ST25R3916).
    Nfc,
    /// The display (an ST7567).
    Display,
    /// The SD card in fast mode.
    SdFast,
    /// The SD card in slow mode.
    SdSlow,
}

/// An SPI sub device connected to (or inside) the Flipper Zero.
#[derive(Clone, Copy, Debug, PartialEq, Eq, Structural)]
enum SubDevice {
    External,
    Internal(Internal),
}

/// An SPI sub device connected to (or inside) the Flipper Zero.
#[derive(Clone, Copy, Debug, PartialEq, Eq, Structural)]
pub struct SpiSub(SubDevice);

/// The firmware's bus handles.
#[derive(Clone, Copy, Debug, PartialEq, Eq, Structural)]
pub enum BusHandleKind {
    External,
    SubGhz,
    Nfc,
    Display,
    SdFast,
    SdSlow,
}

/// The external SPI bus: `SCK` on pin `B3`, `CS` on pin `A4` (software controlled),
/// `MISO` on pin `A6`, `MOSI` on pin `A7`. Only connect 3.3V peripherals directly.
pub fn external() -> (r: SpiSub)
    ensures
        r.spec_handle() == BusHandleKind::External,
        r.spec_needs_init(),
{
    SpiSub(SubDevice::External)
}

impl From<Internal> for SpiSub {
    fn from(sub: Internal) -> (r: SpiSub) {
        SpiSub(SubDevice::Internal(sub))
    }
}

impl vstd::std_specs::convert::FromSpecImpl<Internal> for SpiSub {
    open spec fn obeys_from_spec() -> bool {
        true
    }

    open spec fn from_spec(sub: Internal) -> SpiSub {
        SpiSub::spec_from_internal(sub)
    }
}

impl SpiSub {
    /// The sub device `sub` inside the Flipper Zero.
    pub closed spec fn spec_from_internal(sub: Internal) -> SpiSub {
        SpiSub(SubDevice::Internal(sub))
    }

    /// The bus handle that this sub device is reached through.
    pub closed spec fn spec_handle(self) -> BusHandleKind {
        match self.0 {
            SubDevice::External => BusHandleKind::External,
            SubDevice::Internal(Internal::SubGhz) => BusHandleKind::SubGhz,
            SubDevice::Internal(Internal::Nfc) => BusHandleKind::Nfc,
            SubDevice::Internal(Internal::Display) => BusHandleKind::Display,
            SubDevice::Internal(Internal::SdFast) => BusHandleKind::SdFast,
            SubDevice::Internal(Internal::SdSlow) => BusHandleKind::SdSlow,
        }
    }

    /// Whether the bus handle must be set up before it is acquired and torn down after it
    /// is released: only for the external bus.
    pub closed spec fn spec_needs_init(self) -> bool {
        self.0 is External
    }

    /// The bus handle that this sub device is reached through.
    pub fn handle(self) -> (r: BusHandleKind)
        ensures
            r == self.spec_handle(),
    {
        match self.0 {
            SubDevice::External => BusHandleKind::External,
            SubDevice::Internal(sub) => match sub {
                Internal::SubGhz => BusHandleKind::SubGhz,
                Internal::Nfc => BusHandleKind::Nfc,
                Internal::Display => BusHandleKind::Display,
                Internal::SdFast => BusHandleKind::SdFast,
                Internal::SdSlow => BusHandleKind::SdSlow,
            },
        }
    }

    /// Whether the bus handle must be set up before it is acquired and torn down after it
    /// is released.
    pub fn needs_init(self) -> (r: bool)
        ensures
            r == self.spec_needs_init(),
    {
        match self.0 {
            SubDevice::External => true,
            SubDevice::Internal(_) => false,
        }
    }
}

/// An internal sub device is reached through its own handle, which needs no set-up.
pub proof fn lemma_internal_sub(sub: Internal)
    ensures
        !SpiSub::spec_from_internal(sub).spec_needs_init(),
        SpiSub::spec_from_internal(sub).spec_handle() != BusHandleKind::External,
{
}

/// An error of an SPI transfer.
#[derive(Clone, Copy, Debug, PartialEq, Eq, Structural)]
pub enum Error {
    /// The data to send and the buffer to receive into differ in length.
    DataLengthMismatch,
    /// The bus reported that the transfer failed.
    TransferFailed,
}

/// Checks a full-duplex transfer before it starts: the data to send and the buffer to
/// receive into must have the same length.
pub fn check_duplex_lengths(tx_len: usize, rx_len: usize) -> (r: Result<(), Error>)
    ensures
        r == (if tx_len == rx_len {
            Ok::<(), Error>(())
        } else {
            Err(Error::DataLengthMismatch)
        }),
{
    if tx_len != rx_len {
        Err(Error::DataLengthMismatch)
    } else {
        Ok(())
    }
}

/// What a transfer that the bus reports as `succeeded` or not gives.
pub fn transfer_result(succeeded: bool) -> (r: Result<(), Error>)
    ensures
        r == (if succeeded { Ok::<(), Error>(()) } else { Err(Error::TransferFailed) }),
{
    if succeeded {
        Ok(())
    } else {
        Err(Error::TransferFailed)
    }
}

} // verus!
