//! I2C addressing and the framing of I2C transactions on the Flipper Zero.

use vstd::prelude::*;
use crate::furi::time::FuriDuration;

verus! {

/// A 7-bit I2C device address.
#[derive(Clone, Copy, Debug, PartialEq, Eq, Structural)]
pub struct DeviceAddress(u8);

impl DeviceAddress {
    /// The 7-bit address.
    pub closed spec fn spec_7bit(self) -> u8 {
        self.0
    }

    /// The 8-bit form of the address that the firmware takes: the 7-bit address shifted
    /// left by one place.
    pub open spec fn spec_8bit(self) -> u8 {
        (self.spec_7bit() * 2) as u8
    }

    /// Constructs a `DeviceAddress` from its 7-bit value.
    ///
    /// The upper bit of `addr` is ignored; `0x00` and `0x80` are treated as the same
    /// address.
    pub fn new(addr: u8) -> (r: DeviceAddress)
        ensures
            r.spec_7bit() == addr % 128,
            r.spec_8bit() == (addr * 2) % 256,
    {
        let low = addr & 0x7F;
        assert(low == addr % 128) by (bit_vector)
            requires
                low == addr & 0x7F,
        ;
        DeviceAddress(low)
    }

    /// The address in the 8-bit form that the firmware takes.
    pub fn as_8bit(self) -> (r: u8)
        ensures
            r == self.spec_8bit(),
    {
        proof {
            use_type_invariant(self);
        }
        self.0 * 2
    }

    /// The 7-bit address.
    pub fn as_7bit(self) -> (r: u8)
        ensures
            r == self.spec_7bit(),
            r < 128,
    {
        proof {
            use_type_invariant(self);
        }
        self.0
    }

    #[verifier::type_invariant]
    spec fn inv(self) -> bool {
        self.0 < 128
    }
}

/// Two addresses are the same exactly when their 7-bit values are; so addresses made from
/// numbers that differ only in the upper bit are the same.
pub proof fn lemma_address_identity(a: DeviceAddress, b: DeviceAddress)
    ensures
        a == b <==> a.spec_7bit() == b.spec_7bit(),
{
}

/// The address of the internal LED controller (an LP5562).
pub fn internal_led_controller() -> (r: DeviceAddress)
    ensures
        r.spec_8bit() == 0x60,
{
    DeviceAddress::new(0x30)
}

/// The address of the internal battery fuel gauge (a BQ27220).
pub fn internal_battery_fuel_gauge() -> (r: DeviceAddress)
    ensures
        r.spec_8bit() == 0xAA,
{
    DeviceAddress::new(0x55)
}

/// The address of the internal battery charger (a BQ25896).
pub fn internal_battery_charger() -> (r: DeviceAddress)
    ensures
        r.spec_8bit() == 0xD6,
{
    DeviceAddress::new(0x6B)
}

/// An I2C bus on the Flipper Zero.
#[allow(non_camel_case_types)]
#[derive(Clone, Copy, Debug, PartialEq, Eq, Structural)]
pub enum Bus {
    /// The internal (power) I2C bus, with the LED controller, the fuel gauge and the
    /// charger on it.
    INTERNAL,
    /// The external I2C bus: `SCL` on pin `C0`, `SDA` on pin `C1`.
    EXTERNAL,
}

/// An error of an I2C transfer.
#[derive(Clone, Copy, Debug, PartialEq, Eq, Structural)]
pub enum Error {
    /// The bus reported that the transfer failed.
    TransferFailed,
}

/// What a transfer that the bus reports as `succeeded` or not gives.
pub fn transfer_result(succeeded: bool) -> (r: Result<(), Error>)
    ensures
        r == (if succeeded { Ok::<(), Error>(()) } else { Err(Error::TransferFailed) }),
{
    if succeeded {
        Ok(())
    } else {
        Err(Error::TransferFailed)
    }
}

/// The kind of an I2C operation.
#[derive(Clone, Copy, Debug, PartialEq, Eq, Structural)]
pub enum OperationKind {
    Read,
    Write,
}

/// I2C operation; several operations can be combined as part of a transaction.
#[derive(Debug, PartialEq, Eq)]
pub enum Operation<'a> {
    /// Read data into the provided buffer.
    Read(&'a mut [u8]),
    /// Write data from the provided buffer.
    Write(&'a [u8]),
}

impl<'a> Operation<'a> {
    /// The kind of this operation.
    pub fn kind(&self) -> (r: OperationKind)
        ensures
            r == (match self {
                Operation::Read(_) => OperationKind::Read,
                Operation::Write(_) => OperationKind::Write,
            }),
    {
        match self {
            Operation::Read(_) => OperationKind::Read,
            Operation::Write(_) => OperationKind::Write,
        }
    }
}

/// How a transfer begins on the bus.
#[derive(Clone, Copy, Debug, PartialEq, Eq, Structural)]
pub enum I2cBegin {
    /// A start condition followed by the address.
    Start,
    /// A repeated start condition followed by the address.
    Restart,
    /// Continue the previous transfer without any condition.
    Resume,
}

/// How a transfer ends on the bus.
#[derive(Clone, Copy, Debug, PartialEq, Eq, Structural)]
pub enum I2cEnd {
    /// A stop condition.
    Stop,
    /// No stop condition; a repeated start follows.
    AwaitRestart,
    /// No condition; the next transfer resumes this one.
    Pause,
}

/// How an operation of kind `kind` ends, and how the operation after it begins, given the
/// kind of the next operation if there is one.
pub open spec fn spec_framing(kind: OperationKind, next: Option<OperationKind>) -> (I2cEnd, I2cBegin) {
    match next {
        Some(n) => if n == kind {
            (I2cEnd::Pause, I2cBegin::Resume)
        } else {
            (I2cEnd::AwaitRestart, I2cBegin::Restart)
        },
        None => (I2cEnd::Stop, I2cBegin::Start),
    }
}

/// The kind of the operation after position `i`, if any.
pub open spec fn next_kind(kinds: Seq<OperationKind>, i: int) -> Option<OperationKind> {
    if i + 1 < kinds.len() {
        Some(kinds[i + 1])
    } else {
        None
    }
}

/// The framing of operation `i` of a transaction: how it begins and how it ends.
pub open spec fn planned_transfer(kinds: Seq<OperationKind>, i: int) -> (I2cBegin, I2cEnd) {
    (
        if i == 0 {
            I2cBegin::Start
        } else {
            spec_framing(kinds[i - 1], Some(kinds[i])).1
        },
        spec_framing(kinds[i], next_kind(kinds, i)).0,
    )
}

/// How an operation of kind `kind` ends, and how the next operation begins.
pub fn framing(kind: OperationKind, next: Option<OperationKind>) -> (r: (I2cEnd, I2cBegin))
    ensures
        r == spec_framing(kind, next),
{
    match (kind, next) {
        (OperationKind::Read, Some(OperationKind::Read))
        | (OperationKind::Write, Some(OperationKind::Write)) => (I2cEnd::Pause, I2cBegin::Resume),
        (_, Some(_)) => (I2cEnd::AwaitRestart, I2cBegin::Restart),
        (_, None) => (I2cEnd::Stop, I2cBegin::Start),
    }
}

/// The framing of every operation of a transaction whose operations have the given kinds,
/// in order: the begin and end conditions to hand to each transfer.
///
/// - Before the first operation a start condition is sent, followed by the address.
/// - Adjacent operations of the same kind follow each other without a stop or a restart.
/// - Between adjacent operations of different kinds a repeated start and the address are
///   sent.
/// - After the last operation a stop condition is sent.
pub fn transaction_plan(kinds: &[OperationKind]) -> (r: Vec<(I2cBegin, I2cEnd)>)
    ensures
        r@.len() == kinds@.len(),
        forall|i: int| 0 <= i < kinds@.len() ==> r@[i] == planned_transfer(kinds@, i),
{
    let mut plan: Vec<(I2cBegin, I2cEnd)> = Vec::new();
    let mut start = I2cBegin::Start;
    let mut i: usize = 0;
    while i < kinds.len()
        invariant
            i <= kinds@.len(),
            plan@.len() == i,
            forall|j: int| 0 <= j < i ==> plan@[j] == planned_transfer(kinds@, j),
            i < kinds@.len() ==> start == planned_transfer(kinds@, i as int).0,
        decreases kinds@.len() - i,
    {
        let next = if i + 1 < kinds.len() {
            Some(kinds[i + 1])
        } else {
            None
        };
        let (end, next_start) = framing(kinds[i], next);
        plan.push((start, end));
        start = next_start;
        i = i + 1;
    }
    plan
}

/// The transaction contract: the first transfer begins with a start condition and the
/// last ends with a stop condition; adjacent transfers of the same kind are joined without
/// any condition, and adjacent transfers of different kinds are separated by a repeated
/// start.
pub proof fn lemma_transaction_contract(kinds: Seq<OperationKind>, i: int)
    requires
        0 <= i < kinds.len(),
    ensures
        i == 0 ==> planned_transfer(kinds, i).0 == I2cBegin::Start,
        i == kinds.len() - 1 ==> planned_transfer(kinds, i).1 == I2cEnd::Stop,
        i + 1 < kinds.len() && kinds[i] == kinds[i + 1] ==> planned_transfer(kinds, i).1
            == I2cEnd::Pause && planned_transfer(kinds, i + 1).0 == I2cBegin::Resume,
        i + 1 < kinds.len() && kinds[i] != kinds[i + 1] ==> planned_transfer(kinds, i).1
            == I2cEnd::AwaitRestart && planned_transfer(kinds, i + 1).0 == I2cBegin::Restart,
        0 < i ==> planned_transfer(kinds, i).0 != I2cBegin::Start,
        i < kinds.len() - 1 ==> planned_transfer(kinds, i).1 != I2cEnd::Stop,
{
}

/// An I2C bus implementing the embedded-hal traits: it acquires and releases the bus for
/// each operation and uses the same timeout for each.
#[derive(Clone, Copy, Debug)]
pub struct EmbeddedHalBus {
    bus: Bus,
    timeout: FuriDuration,
}

impl EmbeddedHalBus {
    /// The bus this device acquires.
    pub closed spec fn spec_bus(self) -> Bus {
        self.bus
    }

    /// The timeout used for each operation.
    pub closed spec fn spec_timeout(self) -> FuriDuration {
        self.timeout
    }

    /// A device on `bus` that waits up to `timeout` for each operation.
    pub fn new(bus: Bus, timeout: FuriDuration) -> (r: EmbeddedHalBus)
        ensures
            r.spec_bus() == bus,
            r.spec_timeout() == timeout,
    {
        EmbeddedHalBus { bus, timeout }
    }

    /// Sets the timeout used for each operation.
    pub fn set_timeout(&mut self, timeout: FuriDuration)
        ensures
            final(self).spec_timeout() == timeout,
            final(self).spec_bus() == old(self).spec_bus(),
    {
        self.timeout = timeout
    }

    /// The bus this device acquires.
    pub fn bus(&self) -> (r: Bus)
        ensures
            r == self.spec_bus(),
    {
        self.bus
    }

    /// The timeout used for each operation.
    pub fn timeout(&self) -> (r: FuriDuration)
        ensures
            r == self.spec_timeout(),
    {
        self.timeout
    }
}

} // verus!
