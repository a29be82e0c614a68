//! Bluetooth radio test patterns: the checks on the parameters of tone, packet transmit and
//! packet receive tests, and the numbers handed to the radio.

use vstd::prelude::*;

verus! {

/// A pattern of test packets.
#[derive(Clone, Copy, Debug, PartialEq, Eq, Structural)]
pub enum Pattern {
    /// Pseudo-Random bit sequence 9.
    PseudoRandomBitSequence9,
    /// Pattern of alternating bits '11110000'.
    AlternatingNibbles,
    /// Pattern of alternating bits '10101010'.
    AlternatingBits,
    /// Pseudo-Random bit sequence 15.
    PseudoRandomBitSequence15,
    /// Pattern of All '1' bits.
    AllOnes,
    /// Pattern of All '0' bits.
    AllZeros,
}

impl Pattern {
    /// The radio's number for this pattern.
    pub open spec fn raw(self) -> u8 {
        match self {
            Pattern::PseudoRandomBitSequence9 => 0,
            Pattern::AlternatingNibbles => 1,
            Pattern::AlternatingBits => 2,
            Pattern::PseudoRandomBitSequence15 => 3,
            Pattern::AllOnes => 4,
            Pattern::AllZeros => 5,
        }
    }

    fn to_raw(self) -> (r: u8)
        ensures
            r == self.raw(),
    {
        match self {
            Pattern::PseudoRandomBitSequence9 => 0,
            Pattern::AlternatingNibbles => 1,
            Pattern::AlternatingBits => 2,
            Pattern::PseudoRandomBitSequence15 => 3,
            Pattern::AllOnes => 4,
            Pattern::AllZeros => 5,
        }
    }
}

/// Errors that can occur while producing test patterns.
#[derive(Clone, Copy, Debug, PartialEq, Eq, Structural)]
pub enum Error {
    InvalidChannel,
    InvalidDatarate,
    InvalidPower,
}

/// The highest radio channel.
pub const MAX_CHANNEL: u8 = 39;

/// The highest tone power, in dB.
pub const MAX_POWER: u8 = 6;

/// The tone transmit command for `channel` at `power` dB: the channel and the radio's power
/// number.
///
/// Returns an error unless `channel` is between 0 and 39 and `power` between 0 and 6
/// inclusive; the channel is checked first.
pub fn tone_tx_command(channel: u8, power: u8) -> (r: Result<(u8, u8), Error>)
    ensures
        r == (if channel > MAX_CHANNEL {
            Err(Error::InvalidChannel)
        } else if power > MAX_POWER {
            Err(Error::InvalidPower)
        } else {
            Ok::<(u8, u8), Error>((channel, (0x19 + power) as u8))
        }),
{
    if !(channel <= MAX_CHANNEL) {
        Err(Error::InvalidChannel)
    } else if !(power <= MAX_POWER) {
        Err(Error::InvalidPower)
    } else {
        Ok((channel, 0x19 + power))
    }
}

/// Whether `datarate` is a supported data rate (1 or 2).
pub open spec fn valid_datarate(datarate: u8) -> bool {
    1 <= datarate <= 2
}

/// The packet transmit command for `channel`, `pattern` and `datarate`: the channel, the
/// radio's pattern number and the data rate.
///
/// Returns an error unless `channel` is between 0 and 39 and `datarate` between 1 and 2
/// inclusive; the channel is checked first.
pub fn packet_tx_command(channel: u8, pattern: Pattern, datarate: u8) -> (r: Result<(u8, u8, u8), Error>)
    ensures
        r == (if channel > MAX_CHANNEL {
            Err(Error::InvalidChannel)
        } else if !valid_datarate(datarate) {
            Err(Error::InvalidDatarate)
        } else {
            Ok::<(u8, u8, u8), Error>((channel, pattern.raw(), datarate))
        }),
{
    if !(channel <= MAX_CHANNEL) {
        Err(Error::InvalidChannel)
    } else if !(1 <= datarate && datarate <= 2) {
        Err(Error::InvalidDatarate)
    } else {
        Ok((channel, pattern.to_raw(), datarate))
    }
}

/// The packet receive command for `channel` and `datarate`.
///
/// Returns an error unless `channel` is between 0 and 39 and `datarate` between 1 and 2
/// inclusive; the channel is checked first.
pub fn packet_rx_command(channel: u8, datarate: u8) -> (r: Result<(u8, u8), Error>)
    ensures
        r == (if channel > MAX_CHANNEL {
            Err(Error::InvalidChannel)
        } else if !valid_datarate(datarate) {
            Err(Error::InvalidDatarate)
        } else {
            Ok::<(u8, u8), Error>((channel, datarate))
        }),
{
    if !(channel <= MAX_CHANNEL) {
        Err(Error::InvalidChannel)
    } else if !(1 <= datarate && datarate <= 2) {
        Err(Error::InvalidDatarate)
    } else {
        Ok((channel, datarate))
    }
}

/// The firmware's numbers for every [`Pattern`], one by one, as the firmware's
/// enumeration lists them.
pub proof fn lemma_pattern_numbers()
    ensures
        Pattern::PseudoRandomBitSequence9.raw() == 0,
        Pattern::AlternatingNibbles.raw() == 1,
        Pattern::AlternatingBits.raw() == 2,
        Pattern::PseudoRandomBitSequence15.raw() == 3,
        Pattern::AllOnes.raw() == 4,
        Pattern::AllZeros.raw() == 5,
{
}

} // verus!
