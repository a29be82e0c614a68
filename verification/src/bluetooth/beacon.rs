//! Advertisement Data packets broadcast by the Flipper Zero's Bluetooth beacon.

use vstd::prelude::*;
use vstd::string::StringSliceAdditionalSpecFns;

verus! {

/// The maximum length of the data broadcast by the beacon.
pub const BEACON_MAX_DATA_SIZE: usize = 31;

/// [Assigned numbers] for Advertising Data types.
///
/// [Assigned numbers]: https://bitbucket.org/bluetooth-SIG/public/src/main/assigned_numbers/core/ad_types.yaml
#[derive(Clone, Copy, Debug, PartialEq, Eq, Structural)]
pub enum AdType {
    Flags,
    IncompleteListOf16BitServiceClassUuids,
    CompleteListOf16BitServiceClassUuids,
    IncompleteListOf32BitServiceClassUuids,
    CompleteListOf32BitServiceClassUuids,
    IncompleteListOf128BitServiceClassUuids,
    CompleteListOf128BitServiceClassUuids,
    ShortenedLocalName,
    CompleteLocalName,
    TxPowerLevel,
    ClassOfDevice,
    SimplePairingHashC192,
    SimplePairingRandomizerR192,
    DeviceId,
    SecurityManagerTkValue,
    SecurityManagerOutOfBandFlags,
    PeripheralConnectionIntervalRange,
    ListOf16BitServiceSolicitationUuids,
    ListOf128BitServiceSolicitationUuids,
    ServiceData16BitUuid,
    PublicTargetAddress,
    RandomTargetAddress,
    Appearance,
    AdvertisingInterval,
    LeBluetoothDeviceAddress,
    LeRole,
    SimplePairingHashC256,
    SimplePairingRandomizerR256,
    ListOf32BitServiceSolicitationUuids,
    ServiceData32BitUuid,
    ServiceData128BitUuid,
    LeSecureConnectionsConfirmationValue,
    LeSecureConnectionsRandomValue,
    Uri,
    IndoorPositioning,
    TransportDiscoveryData,
    LeSupportedFeatures,
    ChannelMapUpdateIndication,
    PbAdv,
    MeshMessage,
    MeshBeacon,
    BigInfo,
    BroadcastCode,
    ResolvableSetIdentifier,
    AdvertisingIntervalLong,
    BroadcastName,
    EncryptedAdvertisingData,
    PeriodicAdvertisingResponseTimingInformation,
    ElectronicShelfLabel,
    InformationData3D,
    ManufacturerSpecificData,
}

impl AdType {
    /// The assigned number that identifies this type in an Advertisement Data structure.
    pub open spec fn number(self) -> u8 {
        match self {
            AdType::Flags => 0x01,
            AdType::IncompleteListOf16BitServiceClassUuids => 0x02,
            AdType::CompleteListOf16BitServiceClassUuids => 0x03,
            AdType::IncompleteListOf32BitServiceClassUuids => 0x04,
            AdType::CompleteListOf32BitServiceClassUuids => 0x05,
            AdType::IncompleteListOf128BitServiceClassUuids => 0x06,
            AdType::CompleteListOf128BitServiceClassUuids => 0x07,
            AdType::ShortenedLocalName => 0x08,
            AdType::CompleteLocalName => 0x09,
            AdType::TxPowerLevel => 0x0A,
            AdType::ClassOfDevice => 0x0D,
            AdType::SimplePairingHashC192 => 0x0E,
            AdType::SimplePairingRandomizerR192 => 0x0F,
            AdType::DeviceId => 0x10,
            AdType::SecurityManagerTkValue => 0x10,
            AdType::SecurityManagerOutOfBandFlags => 0x11,
            AdType::PeripheralConnectionIntervalRange => 0x12,
            AdType::ListOf16BitServiceSolicitationUuids => 0x14,
            AdType::ListOf128BitServiceSolicitationUuids => 0x15,
            AdType::ServiceData16BitUuid => 0x16,
            AdType::PublicTargetAddress => 0x17,
            AdType::RandomTargetAddress => 0x18,
            AdType::Appearance => 0x19,
            AdType::AdvertisingInterval => 0x1A,
            AdType::LeBluetoothDeviceAddress => 0x1B,
            AdType::LeRole => 0x1C,
            AdType::SimplePairingHashC256 => 0x1D,
            AdType::SimplePairingRandomizerR256 => 0x1E,
            AdType::ListOf32BitServiceSolicitationUuids => 0x1F,
            AdType::ServiceData32BitUuid => 0x20,
            AdType::ServiceData128BitUuid => 0x21,
            AdType::LeSecureConnectionsConfirmationValue => 0x22,
            AdType::LeSecureConnectionsRandomValue => 0x23,
            AdType::Uri => 0x24,
            AdType::IndoorPositioning => 0x25,
            AdType::TransportDiscoveryData => 0x26,
            AdType::LeSupportedFeatures => 0x27,
            AdType::ChannelMapUpdateIndication => 0x28,
            AdType::PbAdv => 0x29,
            AdType::MeshMessage => 0x2A,
            AdType::MeshBeacon => 0x2B,
            AdType::BigInfo => 0x2C,
            AdType::BroadcastCode => 0x2D,
            AdType::ResolvableSetIdentifier => 0x2E,
            AdType::AdvertisingIntervalLong => 0x2F,
            AdType::BroadcastName => 0x30,
            AdType::EncryptedAdvertisingData => 0x31,
            AdType::PeriodicAdvertisingResponseTimingInformation => 0x32,
            AdType::ElectronicShelfLabel => 0x34,
            AdType::InformationData3D => 0x3D,
            AdType::ManufacturerSpecificData => 0xFF,
        }
    }

    fn to_number(self) -> (r: u8)
        ensures
            r == self.number(),
    {
        match self {
            AdType::Flags => 0x01,
            AdType::IncompleteListOf16BitServiceClassUuids => 0x02,
            AdType::CompleteListOf16BitServiceClassUuids => 0x03,
            AdType::IncompleteListOf32BitServiceClassUuids => 0x04,
            AdType::CompleteListOf32BitServiceClassUuids => 0x05,
            AdType::IncompleteListOf128BitServiceClassUuids => 0x06,
            AdType::CompleteListOf128BitServiceClassUuids => 0x07,
            AdType::ShortenedLocalName => 0x08,
            AdType::CompleteLocalName => 0x09,
            AdType::TxPowerLevel => 0x0A,
            AdType::ClassOfDevice => 0x0D,
            AdType::SimplePairingHashC192 => 0x0E,
            AdType::SimplePairingRandomizerR192 => 0x0F,
            AdType::DeviceId => 0x10,
            AdType::SecurityManagerTkValue => 0x10,
            AdType::SecurityManagerOutOfBandFlags => 0x11,
            AdType::PeripheralConnectionIntervalRange => 0x12,
            AdType::ListOf16BitServiceSolicitationUuids => 0x14,
            AdType::ListOf128BitServiceSolicitationUuids => 0x15,
            AdType::ServiceData16BitUuid => 0x16,
            AdType::PublicTargetAddress => 0x17,
            AdType::RandomTargetAddress => 0x18,
            AdType::Appearance => 0x19,
            AdType::AdvertisingInterval => 0x1A,
            AdType::LeBluetoothDeviceAddress => 0x1B,
            AdType::LeRole => 0x1C,
            AdType::SimplePairingHashC256 => 0x1D,
            AdType::SimplePairingRandomizerR256 => 0x1E,
            AdType::ListOf32BitServiceSolicitationUuids => 0x1F,
            AdType::ServiceData32BitUuid => 0x20,
            AdType::ServiceData128BitUuid => 0x21,
            AdType::LeSecureConnectionsConfirmationValue => 0x22,
            AdType::LeSecureConnectionsRandomValue => 0x23,
            AdType::Uri => 0x24,
            AdType::IndoorPositioning => 0x25,
            AdType::TransportDiscoveryData => 0x26,
            AdType::LeSupportedFeatures => 0x27,
            AdType::ChannelMapUpdateIndication => 0x28,
            AdType::PbAdv => 0x29,
            AdType::MeshMessage => 0x2A,
            AdType::MeshBeacon => 0x2B,
            AdType::BigInfo => 0x2C,
            AdType::BroadcastCode => 0x2D,
            AdType::ResolvableSetIdentifier => 0x2E,
            AdType::AdvertisingIntervalLong => 0x2F,
            AdType::BroadcastName => 0x30,
            AdType::EncryptedAdvertisingData => 0x31,
            AdType::PeriodicAdvertisingResponseTimingInformation => 0x32,
            AdType::ElectronicShelfLabel => 0x34,
            AdType::InformationData3D => 0x3D,
            AdType::ManufacturerSpecificData => 0xFF,
        }
    }
}

/// The URL Scheme Prefix byte defines the identifier scheme, an optional prefix and how
/// the remainder of the URL is encoded.
#[derive(Clone, Copy, Debug, PartialEq, Eq, Structural)]
pub enum EddystoneUrlScheme {
    /// URL prefixed with `http://www.`
    HttpWww,
    /// URL prefixed with `https://www.`
    HttpsWww,
    /// URL prefixed with `http://`
    Http,
    /// URL prefixed with `https://`
    Https,
}

impl EddystoneUrlScheme {
    /// The URL Scheme Prefix byte of this scheme.
    pub open spec fn number(self) -> u8 {
        match self {
            EddystoneUrlScheme::HttpWww => 0x00,
            EddystoneUrlScheme::HttpsWww => 0x01,
            EddystoneUrlScheme::Http => 0x02,
            EddystoneUrlScheme::Https => 0x03,
        }
    }

    fn to_number(self) -> (r: u8)
        ensures
            r == self.number(),
    {
        match self {
            EddystoneUrlScheme::HttpWww => 0x00,
            EddystoneUrlScheme::HttpsWww => 0x01,
            EddystoneUrlScheme::Http => 0x02,
            EddystoneUrlScheme::Https => 0x03,
        }
    }
}

/// Errors that can occur while interacting with the beacon.
#[derive(Clone, Copy, Debug, PartialEq, Eq, Structural)]
pub enum Error {
    BeaconActive,
    DataTooLong,
    FailedToSetConfig,
    FailedToSetData,
    FailedToStartBeacon,
    FailedToStopBeacon,
    UnknownAddressType,
}

/// The Bluetooth address of the beacon.
#[derive(Clone, Copy, Debug, PartialEq, Eq)]
pub enum Address {
    Public([u8; 6]),
    RandomStatic([u8; 6]),
}

/// One Advertisement Data structure: its length byte (counting the type byte and the
/// data), its type byte, then its data.
pub open spec fn ad_structure(ad_type: AdType, ad_data: Seq<u8>) -> Seq<u8> {
    seq![(1 + ad_data.len()) as u8, ad_type.number()] + ad_data
}

/// An Advertisement Data packet.
pub struct AdPacket {
    data: [u8; BEACON_MAX_DATA_SIZE],
    data_len: usize,
}

impl AdPacket {
    #[verifier::type_invariant]
    spec fn inv(self) -> bool {
        self.data_len <= BEACON_MAX_DATA_SIZE
    }
}

impl AdPacket {
    /// The whole buffer of the packet, the bytes past its length included.
    pub closed spec fn spec_buffer(self) -> Seq<u8> {
        self.data@
    }
}

impl View for AdPacket {
    type V = Seq<u8>;

    /// The bytes of the packet.
    closed spec fn view(&self) -> Seq<u8> {
        self.data@.take(self.data_len as int)
    }
}

/// The packet that appending the AD structure of `ad_type` and `ad_data` to a packet
/// holding `packet` gives: the structure added when the result fits in
/// [`BEACON_MAX_DATA_SIZE`] bytes, else [`Error::DataTooLong`] with the packet unchanged.
pub open spec fn spec_push(packet: Seq<u8>, ad_type: AdType, ad_data: Seq<u8>) -> (Result<(), Error>, Seq<u8>) {
    if packet.len() + 2 + ad_data.len() <= BEACON_MAX_DATA_SIZE {
        (Ok(()), packet + ad_structure(ad_type, ad_data))
    } else {
        (Err(Error::DataTooLong), packet)
    }
}

/// The buffer of a packet holding `len` bytes in `buffer` after appending the AD structure
/// of `ad_type` and `ad_data`: when the structure fits, its bytes replace those just past
/// the packet and every other byte stays; otherwise the whole buffer stays.
pub open spec fn spec_push_buffer(buffer: Seq<u8>, len: nat, ad_type: AdType, ad_data: Seq<u8>) -> Seq<u8> {
    if len + 2 + ad_data.len() <= BEACON_MAX_DATA_SIZE {
        buffer.take(len as int) + ad_structure(ad_type, ad_data) + buffer.skip((len + 2 + ad_data.len()) as int)
    } else {
        buffer
    }
}

/// Copies `src` into `buf` starting at `offset`.
fn write_bytes<const N: usize>(buf: &mut [u8; N], offset: usize, src: &[u8])
    requires
        offset + src@.len() <= N,
    ensures
        final(buf)@ == old(buf)@.take(offset as int) + src@ + old(buf)@.skip(offset + src@.len()),
{
    let mut i: usize = 0;
    while i < src.len()
        invariant
            offset + src@.len() <= N,
            i <= src@.len(),
            buf@ == old(buf)@.take(offset as int) + src@.take(i as int) + old(buf)@.skip(offset + i),
        decreases src@.len() - i,
    {
        buf[offset + i] = src[i];
        assert(src@.take(i + 1) =~= src@.take(i as int).push(src@[i as int]));
        i = i + 1;
        assert(buf@ =~= old(buf)@.take(offset as int) + src@.take(i as int) + old(buf)@.skip(offset + i));
    }
    assert(src@.take(i as int) =~= src@);
}

impl AdPacket {
    /// The number of bytes in the packet.
    pub fn len(&self) -> (r: usize)
        ensures
            r == self@.len(),
            r <= BEACON_MAX_DATA_SIZE,
    {
        proof {
            use_type_invariant(self);
        }
        self.data_len
    }

    /// The bytes of the packet.
    pub fn data(&self) -> (r: &[u8])
        ensures
            r@ == self@,
    {
        proof {
            use_type_invariant(self);
        }
        &self.data[0..self.data_len]
    }

    /// Constructs an empty Advertisement Data packet, its whole buffer zeroed.
    pub fn empty() -> (r: AdPacket)
        ensures
            r@ == Seq::<u8>::empty(),
            r.spec_buffer() == Seq::new(BEACON_MAX_DATA_SIZE as nat, |i: int| 0u8),
    {
        AdPacket { data: [0; BEACON_MAX_DATA_SIZE], data_len: 0 }
    }

    /// Appends an Advertisement Data structure to the data packet.
    ///
    /// Returns an error, and leaves the packet unchanged, if the resulting packet would be
    /// longer than [`BEACON_MAX_DATA_SIZE`].
    pub fn push_var(&mut self, ad_type: AdType, ad_data: &[u8]) -> (r: Result<(), Error>)
        ensures
            (r, final(self)@) == spec_push(old(self)@, ad_type, ad_data@),
            final(self).spec_buffer() == spec_push_buffer(
                old(self).spec_buffer(),
                old(self)@.len(),
                ad_type,
                ad_data@,
            ),
    {
        proof {
            use_type_invariant(&*self);
        }
        if ad_data.len() > BEACON_MAX_DATA_SIZE {
            return Err(Error::DataTooLong);
        }
        let new_len = self.data_len + 2 + ad_data.len();
        if new_len > BEACON_MAX_DATA_SIZE {
            Err(Error::DataTooLong)
        } else {
            let ghost before = self.data@;
            let len = self.data_len;
            let mut buffer = self.data;
            buffer[len] = 1 + ad_data.len() as u8;
            buffer[len + 1] = ad_type.to_number();
            write_bytes(&mut buffer, len + 2, ad_data);
            self.data = buffer;
            self.data_len = new_len;
            assert(self@ =~= before.take(len as int) + ad_structure(ad_type, ad_data@));
            assert(self.data@ =~= before.take(len as int) + ad_structure(ad_type, ad_data@) + before.skip(
                new_len as int,
            ));
            Ok(())
        }
    }
}

/// Distinct AD types have distinct type bytes, except Device ID and Security Manager TK
/// Value, which the Bluetooth assigned numbers give the same number (0x10).
#[verifier::rlimit(50)]
pub proof fn lemma_ad_type_numbers_distinct(a: AdType, b: AdType)
    requires
        a.number() == b.number(),
    ensures
        a == b || (a is DeviceId && b is SecurityManagerTkValue) || (a is SecurityManagerTkValue
            && b is DeviceId),
{
}

/// The Bluetooth assigned numbers of the AD types, as the Bluetooth SIG lists them for
/// Advertising Data types; only the manufacturer specific data (0xFF) lies above 0x3D.
pub proof fn lemma_ad_type_assigned_numbers(t: AdType)
    ensures
        AdType::Flags.number() == 0x01,
        AdType::IncompleteListOf16BitServiceClassUuids.number() == 0x02,
        AdType::CompleteListOf16BitServiceClassUuids.number() == 0x03,
        AdType::IncompleteListOf32BitServiceClassUuids.number() == 0x04,
        AdType::CompleteListOf32BitServiceClassUuids.number() == 0x05,
        AdType::IncompleteListOf128BitServiceClassUuids.number() == 0x06,
        AdType::CompleteListOf128BitServiceClassUuids.number() == 0x07,
        AdType::ShortenedLocalName.number() == 0x08,
        AdType::CompleteLocalName.number() == 0x09,
        AdType::TxPowerLevel.number() == 0x0A,
        AdType::ClassOfDevice.number() == 0x0D,
        AdType::SimplePairingHashC192.number() == 0x0E,
        AdType::SimplePairingRandomizerR192.number() == 0x0F,
        AdType::DeviceId.number() == 0x10,
        AdType::SecurityManagerTkValue.number() == 0x10,
        AdType::SecurityManagerOutOfBandFlags.number() == 0x11,
        AdType::PeripheralConnectionIntervalRange.number() == 0x12,
        AdType::ListOf16BitServiceSolicitationUuids.number() == 0x14,
        AdType::ListOf128BitServiceSolicitationUuids.number() == 0x15,
        AdType::ServiceData16BitUuid.number() == 0x16,
        AdType::PublicTargetAddress.number() == 0x17,
        AdType::RandomTargetAddress.number() == 0x18,
        AdType::Appearance.number() == 0x19,
        AdType::AdvertisingInterval.number() == 0x1A,
        AdType::LeBluetoothDeviceAddress.number() == 0x1B,
        AdType::LeRole.number() == 0x1C,
        AdType::SimplePairingHashC256.number() == 0x1D,
        AdType::SimplePairingRandomizerR256.number() == 0x1E,
        AdType::ListOf32BitServiceSolicitationUuids.number() == 0x1F,
        AdType::ServiceData32BitUuid.number() == 0x20,
        AdType::ServiceData128BitUuid.number() == 0x21,
        AdType::LeSecureConnectionsConfirmationValue.number() == 0x22,
        AdType::LeSecureConnectionsRandomValue.number() == 0x23,
        AdType::Uri.number() == 0x24,
        AdType::IndoorPositioning.number() == 0x25,
        AdType::TransportDiscoveryData.number() == 0x26,
        AdType::LeSupportedFeatures.number() == 0x27,
        AdType::ChannelMapUpdateIndication.number() == 0x28,
        AdType::PbAdv.number() == 0x29,
        AdType::MeshMessage.number() == 0x2A,
        AdType::MeshBeacon.number() == 0x2B,
        AdType::BigInfo.number() == 0x2C,
        AdType::BroadcastCode.number() == 0x2D,
        AdType::ResolvableSetIdentifier.number() == 0x2E,
        AdType::AdvertisingIntervalLong.number() == 0x2F,
        AdType::BroadcastName.number() == 0x30,
        AdType::EncryptedAdvertisingData.number() == 0x31,
        AdType::PeriodicAdvertisingResponseTimingInformation.number() == 0x32,
        AdType::ElectronicShelfLabel.number() == 0x34,
        AdType::InformationData3D.number() == 0x3D,
        AdType::ManufacturerSpecificData.number() == 0xFF,
        (0x01 <= t.number() <= 0x3D) || t.number() == 0xFF,
        t.number() == 0xFF <==> t is ManufacturerSpecificData,
{
}

/// Manufacturer data of an iBeacon: Apple's company identifier, the iBeacon type and
/// length, the UUID, the big-endian major and minor numbers and the calibrated power.
pub open spec fn i_beacon_data(uuid: Seq<u8>, major: u16, minor: u16, signal_power: u8) -> Seq<u8> {
    seq![0x4Cu8, 0x00, 0x02, 0x15] + uuid + seq![
        (major / 256) as u8,
        (major % 256) as u8,
        (minor / 256) as u8,
        (minor % 256) as u8,
        signal_power,
    ]
}

/// Manufacturer data of an AltBeacon: the little-endian manufacturer identifier, the
/// `BEAC` beacon code, the beacon identifier, the reference RSSI and the reserved byte.
pub open spec fn alt_beacon_data(mfg_id: u16, beacon_id: Seq<u8>, ref_rssi: i8, mfg_reserved: u8) -> Seq<u8> {
    seq![(mfg_id % 256) as u8, (mfg_id / 256) as u8, 0xBE, 0xAC] + beacon_id + seq![
        ref_rssi as u8,
        mfg_reserved,
    ]
}

impl AdPacket {
    /// Appends an Advertisement Data structure to the data packet.
    ///
    /// Returns an error, and leaves the packet unchanged, if the resulting packet would be
    /// longer than [`BEACON_MAX_DATA_SIZE`].
    pub fn push<const N: usize>(&mut self, ad_type: AdType, ad_data: [u8; N]) -> (r: Result<(), Error>)
        ensures
            (r, final(self)@) == spec_push(old(self)@, ad_type, ad_data@),
            final(self).spec_buffer() == spec_push_buffer(
                old(self).spec_buffer(),
                old(self)@.len(),
                ad_type,
                ad_data@,
            ),
    {
        self.push_var(ad_type, &ad_data)
    }

    /// Concatenates an Advertisement Data structure to this packet.
    ///
    /// Returns an error if the resulting packet would be longer than
    /// [`BEACON_MAX_DATA_SIZE`].
    pub fn with<const N: usize>(self, ad_type: AdType, ad_data: [u8; N]) -> (r: Result<AdPacket, Error>)
        ensures
            r matches Ok(p) ==> p.spec_buffer() == spec_push_buffer(
                self.spec_buffer(),
                self@.len(),
                ad_type,
                ad_data@,
            ),
            r is Ok <==> spec_push(self@, ad_type, ad_data@).0 is Ok,
            r matches Ok(p) ==> p@ == spec_push(self@, ad_type, ad_data@).1,
            r matches Err(e) ==> spec_push(self@, ad_type, ad_data@).0 == Err::<(), Error>(e),
    {
        let mut packet = self;
        match packet.push(ad_type, ad_data) {
            Ok(()) => Ok(packet),
            Err(e) => Err(e),
        }
    }

    /// Concatenates an Advertisement Data structure to this packet.
    ///
    /// Returns an error if the resulting packet would be longer than
    /// [`BEACON_MAX_DATA_SIZE`].
    pub fn with_var(self, ad_type: AdType, ad_data: &[u8]) -> (r: Result<AdPacket, Error>)
        ensures
            r matches Ok(p) ==> p.spec_buffer() == spec_push_buffer(
                self.spec_buffer(),
                self@.len(),
                ad_type,
                ad_data@,
            ),
            r is Ok <==> spec_push(self@, ad_type, ad_data@).0 is Ok,
            r matches Ok(p) ==> p@ == spec_push(self@, ad_type, ad_data@).1,
            r matches Err(e) ==> spec_push(self@, ad_type, ad_data@).0 == Err::<(), Error>(e),
    {
        let mut packet = self;
        match packet.push_var(ad_type, ad_data) {
            Ok(()) => Ok(packet),
            Err(e) => Err(e),
        }
    }

    /// Constructs an [AltBeacon] Advertisement Data packet.
    ///
    /// `ref_rssi` is the average RSSI at 1 metre. Returns `None` if `ref_rssi` is not
    /// between -127 and 0 inclusive.
    ///
    /// [AltBeacon]: https://github.com/AltBeacon/spec
    pub fn alt_beacon(mfg_id: u16, beacon_id: [u8; 20], ref_rssi: i8, mfg_reserved: u8) -> (r: Option<AdPacket>)
        ensures
            r is Some <==> -127 <= ref_rssi <= 0,
            r matches Some(p) ==> p@ == ad_structure(
                AdType::ManufacturerSpecificData,
                alt_beacon_data(mfg_id, beacon_id@, ref_rssi, mfg_reserved),
            ),
    {
        if !(-127 <= ref_rssi && ref_rssi <= 0) {
            return None;
        }
        let mut mf_data: [u8; 26] = [
            (mfg_id % 256) as u8,
            (mfg_id / 256) as u8,
            0xBE,
            0xAC,
            0x00,  // Beacon ID
            0x00,
            0x00,
            0x00,
            0x00,
            0x00,
            0x00,
            0x00,
            0x00,
            0x00,
            0x00,
            0x00,
            0x00,
            0x00,
            0x00,
            0x00,
            0x00,
            0x00,
            0x00,
            0x00,
            ref_rssi as u8,
            mfg_reserved,
        ];
        let ghost template = mf_data@;
        write_bytes(&mut mf_data, 4, &beacon_id);
        assert(mf_data@ =~= alt_beacon_data(mfg_id, beacon_id@, ref_rssi, mfg_reserved));
        match AdPacket::empty().with(AdType::ManufacturerSpecificData, mf_data) {
            Ok(p) => Some(p),
            Err(_) => None,
        }
    }

    /// Constructs an iBeacon Advertisement Data packet from the 16 bytes of its UUID.
    ///
    /// `signal_power` is the calibrated RSSI at 1 metre.
    pub fn i_beacon_from_bytes(uuid: [u8; 16], major: u16, minor: u16, signal_power: u8) -> (r: AdPacket)
        ensures
            r@ == ad_structure(AdType::Flags, seq![0x06u8]) + ad_structure(
                AdType::ManufacturerSpecificData,
                i_beacon_data(uuid@, major, minor, signal_power),
            ),
    {
        let mut mf_data: [u8; 25] = [
            0x4C,
            0x00,
            0x02,
            0x15,
            0x00,  // UUID
            0x00,
            0x00,
            0x00,
            0x00,
            0x00,
            0x00,
            0x00,
            0x00,
            0x00,
            0x00,
            0x00,
            0x00,
            0x00,
            0x00,
            0x00,
            (major / 256) as u8,
            (major % 256) as u8,
            (minor / 256) as u8,
            (minor % 256) as u8,
            signal_power,
        ];
        write_bytes(&mut mf_data, 4, &uuid);
        assert(mf_data@ =~= i_beacon_data(uuid@, major, minor, signal_power));
        let mut packet = AdPacket::empty();
        // LE and BR/EDR flag.
        let _ = packet.push(AdType::Flags, [0x06]);
        // iBeacon AD structure.
        let _ = packet.push(AdType::ManufacturerSpecificData, mf_data);
        assert(packet@ =~= ad_structure(AdType::Flags, seq![0x06u8]) + ad_structure(
            AdType::ManufacturerSpecificData,
            i_beacon_data(uuid@, major, minor, signal_power),
        ));
        packet
    }
}

/// Whether `url` starts with `.` followed by the three bytes `c1 c2 c3`.
pub open spec fn starts_with_tld(url: Seq<u8>, c1: u8, c2: u8, c3: u8) -> bool {
    url.len() >= 4 && url[0] == 0x2E && url[1] == c1 && url[2] == c2 && url[3] == c3
}

/// Whether the byte at `i` of `url` is present and equals `b`.
pub open spec fn byte_at_is(url: Seq<u8>, i: int, b: u8) -> bool {
    i < url.len() && url[i] == b
}

/// The Eddystone-URL encoding of the front of `url` (at least four bytes long): the byte
/// written and how many bytes of `url` it stands for. Top-level domains followed by `/`
/// or ending the URL are expanded to their code; any other byte is written as itself.
pub open spec fn url_expansion(url: Seq<u8>) -> (u8, int) {
    let com = starts_with_tld(url, 0x63, 0x6F, 0x6D);
    let org = starts_with_tld(url, 0x6F, 0x72, 0x67);
    let edu = starts_with_tld(url, 0x65, 0x64, 0x75);
    let net = starts_with_tld(url, 0x6E, 0x65, 0x74);
    let inf = starts_with_tld(url, 0x69, 0x6E, 0x66);
    let biz = starts_with_tld(url, 0x62, 0x69, 0x7A);
    let gov = starts_with_tld(url, 0x67, 0x6F, 0x76);
    let slash = byte_at_is(url, 4, 0x2F);
    let end = url.len() == 4;
    if com && slash {
        (0x00, 5)
    } else if org && slash {
        (0x01, 5)
    } else if edu && slash {
        (0x02, 5)
    } else if net && slash {
        (0x03, 5)
    } else if inf && byte_at_is(url, 4, 0x6F) {
        if byte_at_is(url, 5, 0x2F) {
            (0x04, 6)
        } else {
            (0x0B, 5)
        }
    } else if biz && slash {
        (0x05, 5)
    } else if gov && slash {
        (0x06, 5)
    } else if com && end {
        (0x07, 4)
    } else if org && end {
        (0x08, 4)
    } else if edu && end {
        (0x09, 4)
    } else if net && end {
        (0x0A, 4)
    } else if biz && end {
        (0x0C, 4)
    } else if gov && end {
        (0x0D, 4)
    } else {
        (url[0], 1)
    }
}

/// Every expansion consumes at least one byte and no more bytes than the URL holds.
pub proof fn lemma_url_expansion_advances(url: Seq<u8>)
    requires
        url.len() >= 4,
    ensures
        1 <= url_expansion(url).1 <= url.len(),
{
}

/// An AD structure is self-describing: its first byte counts the bytes that follow it,
/// its second byte is the type's assigned number, and the data follows unchanged.
pub proof fn lemma_ad_structure_layout(ad_type: AdType, ad_data: Seq<u8>)
    requires
        ad_data.len() <= 254,
    ensures
        ad_structure(ad_type, ad_data).len() == ad_structure(ad_type, ad_data)[0] + 1,
        ad_structure(ad_type, ad_data)[1] == ad_type.number(),
        ad_structure(ad_type, ad_data).skip(2) == ad_data,
{
    assert(ad_structure(ad_type, ad_data).skip(2) =~= ad_data);
}

/// A URL without any `.` has nothing to compress: its encoding is the URL itself.
pub proof fn lemma_encode_url_without_dots(url: Seq<u8>)
    requires
        forall|i: int| 0 <= i < url.len() ==> url[i] != 0x2E,
    ensures
        encode_url(url) == url,
    decreases url.len(),
{
    if url.len() >= 4 {
        let rest = url.skip(1);
        assert(url_expansion(url) == (url[0], 1int));
        assert forall|i: int| 0 <= i < rest.len() implies rest[i] != 0x2E by {
            assert(rest[i] == url[i + 1]);
        }
        lemma_encode_url_without_dots(rest);
        assert(seq![url[0]] + rest =~= url);
    }
}

/// iBeacon manufacturer data reads back as what it was built from: Apple's company
/// identifier 0x004C little-endian, the iBeacon type 0x02 and length 0x15 (the 21 bytes
/// that follow), the UUID, then the major and minor numbers big-endian and the power.
pub proof fn lemma_i_beacon_data_fields(uuid: Seq<u8>, major: u16, minor: u16, signal_power: u8)
    requires
        uuid.len() == 16,
    ensures
        ({
            let d = i_beacon_data(uuid, major, minor, signal_power);
            &&& d.len() == 25
            &&& d[0] + d[1] * 256 == 0x004C
            &&& d[2] == 0x02
            &&& d[3] == d.len() - 4
            &&& d.subrange(4, 20) == uuid
            &&& d[20] * 256 + d[21] == major
            &&& d[22] * 256 + d[23] == minor
            &&& d[24] == signal_power
        }),
{
    let d = i_beacon_data(uuid, major, minor, signal_power);
    assert(d.subrange(4, 20) =~= uuid);
}

/// AltBeacon manufacturer data reads back as what it was built from: the manufacturer
/// identifier little-endian, the beacon code 0xBEAC big-endian, the beacon identifier,
/// then the reference RSSI and the reserved byte.
pub proof fn lemma_alt_beacon_data_fields(mfg_id: u16, beacon_id: Seq<u8>, ref_rssi: i8, mfg_reserved: u8)
    requires
        beacon_id.len() == 20,
    ensures
        ({
            let d = alt_beacon_data(mfg_id, beacon_id, ref_rssi, mfg_reserved);
            &&& d.len() == 26
            &&& d[0] + d[1] * 256 == mfg_id
            &&& d[2] * 256 + d[3] == 0xBEAC
            &&& d.subrange(4, 24) == beacon_id
            &&& d[24] == ref_rssi as u8
            &&& d[25] == mfg_reserved
        }),
{
    let d = alt_beacon_data(mfg_id, beacon_id, ref_rssi, mfg_reserved);
    assert(d.subrange(4, 24) =~= beacon_id);
}

/// Whether `url` begins with the bytes `prefix`.
pub open spec fn begins_with(url: Seq<u8>, prefix: Seq<u8>) -> bool {
    prefix.len() <= url.len() && forall|i: int| 0 <= i < prefix.len() ==> url[i] == prefix[i]
}

/// The bytes `.` and the three letters `c1 c2 c3` of a top-level domain.
pub open spec fn tld(c1: u8, c2: u8, c3: u8) -> Seq<u8> {
    seq![0x2Eu8, c1, c2, c3]
}

/// The Eddystone-URL expansion table: a top-level domain followed by `/` takes its code
/// with the slash (`.com/` 0x00, `.org/` 0x01, `.edu/` 0x02, `.net/` 0x03, `.info/` 0x04,
/// `.biz/` 0x05, `.gov/` 0x06), one that ends the URL takes its own code (`.com` 0x07,
/// `.org` 0x08, `.edu` 0x09, `.net` 0x0A, `.biz` 0x0C, `.gov` 0x0D), `.info` without a
/// slash after it takes 0x0B, and a URL that does not begin with `.` keeps its first byte.
pub proof fn lemma_url_expansion_table(url: Seq<u8>)
    requires
        url.len() >= 4,
    ensures
        begins_with(url, tld(0x63, 0x6F, 0x6D).push(0x2F)) ==> url_expansion(url) == (0x00u8, 5int),
        begins_with(url, tld(0x6F, 0x72, 0x67).push(0x2F)) ==> url_expansion(url) == (0x01u8, 5int),
        begins_with(url, tld(0x65, 0x64, 0x75).push(0x2F)) ==> url_expansion(url) == (0x02u8, 5int),
        begins_with(url, tld(0x6E, 0x65, 0x74).push(0x2F)) ==> url_expansion(url) == (0x03u8, 5int),
        begins_with(url, tld(0x69, 0x6E, 0x66).push(0x6F).push(0x2F)) ==> url_expansion(url) == (
            0x04u8,
            6int,
        ),
        begins_with(url, tld(0x62, 0x69, 0x7A).push(0x2F)) ==> url_expansion(url) == (0x05u8, 5int),
        begins_with(url, tld(0x67, 0x6F, 0x76).push(0x2F)) ==> url_expansion(url) == (0x06u8, 5int),
        url == tld(0x63, 0x6F, 0x6D) ==> url_expansion(url) == (0x07u8, 4int),
        url == tld(0x6F, 0x72, 0x67) ==> url_expansion(url) == (0x08u8, 4int),
        url == tld(0x65, 0x64, 0x75) ==> url_expansion(url) == (0x09u8, 4int),
        url == tld(0x6E, 0x65, 0x74) ==> url_expansion(url) == (0x0Au8, 4int),
        begins_with(url, tld(0x69, 0x6E, 0x66).push(0x6F)) && !begins_with(
            url,
            tld(0x69, 0x6E, 0x66).push(0x6F).push(0x2F),
        ) ==> url_expansion(url) == (0x0Bu8, 5int),
        url == tld(0x62, 0x69, 0x7A) ==> url_expansion(url) == (0x0Cu8, 4int),
        url == tld(0x67, 0x6F, 0x76) ==> url_expansion(url) == (0x0Du8, 4int),
        url[0] != 0x2E ==> url_expansion(url) == (url[0], 1int),
{
    assert(url.len() >= 5 ==> url.take(5)[4] == url[4]);
    if url.len() >= 5 {
        assert(url[4] == url[4]);
    }
}

/// The Eddystone-URL compressed form of `url`: expansions are applied from the front for as
/// long as at least four bytes remain; the last bytes are copied as they are.
pub open spec fn encode_url(url: Seq<u8>) -> Seq<u8>
    decreases url.len(),
{
    if url.len() < 4 {
        url
    } else {
        proof {
            lemma_url_expansion_advances(url);
        }
        seq![url_expansion(url).0] + encode_url(url.skip(url_expansion(url).1))
    }
}

/// Whether the bytes of `url` from `pos` are `.` followed by `c1 c2 c3`.
fn tld_at(url: &[u8], pos: usize, c1: u8, c2: u8, c3: u8) -> (r: bool)
    requires
        pos + 4 <= url@.len(),
    ensures
        r == starts_with_tld(url@.skip(pos as int), c1, c2, c3),
{
    url[pos] == 0x2E && url[pos + 1] == c1 && url[pos + 2] == c2 && url[pos + 3] == c3
}

/// Whether the byte `k` places after `pos` in `url` is present and equals `b`.
fn byte_is(url: &[u8], pos: usize, k: usize, b: u8) -> (r: bool)
    requires
        pos <= url@.len(),
    ensures
        r == (pos + k < url@.len() && url@[pos + k] == b),
{
    k < url.len() - pos && url[pos + k] == b
}

/// Appends the bytes of `src` from `pos` on to `out`.
fn append_from(out: &mut Vec<u8>, src: &[u8], pos: usize)
    requires
        pos <= src@.len(),
    ensures
        final(out)@ == old(out)@ + src@.skip(pos as int),
{
    let mut i = pos;
    while i < src.len()
        invariant
            pos <= i <= src@.len(),
            out@ == old(out)@ + src@.subrange(pos as int, i as int),
        decreases src@.len() - i,
    {
        out.push(src[i]);
        proof {
            assert(src@.subrange(pos as int, i + 1) =~= src@.subrange(pos as int, i as int).push(
                src@[i as int],
            ));
        }
        i = i + 1;
    }
    assert(src@.subrange(pos as int, i as int) =~= src@.skip(pos as int));
}

/// The Eddystone-URL expansion of the bytes of `url` from `pos`.
fn expansion_at(url: &[u8], pos: usize) -> (r: (u8, usize))
    requires
        pos + 4 <= url@.len(),
    ensures
        (r.0, r.1 as int) == url_expansion(url@.skip(pos as int)),
{
    let ghost rest = url@.skip(pos as int);
    assert(forall|i: int| 0 <= i < rest.len() ==> rest[i] == url@[pos + i]);
    let com = tld_at(url, pos, 0x63, 0x6F, 0x6D);
    let org = tld_at(url, pos, 0x6F, 0x72, 0x67);
    let edu = tld_at(url, pos, 0x65, 0x64, 0x75);
    let net = tld_at(url, pos, 0x6E, 0x65, 0x74);
    let inf = tld_at(url, pos, 0x69, 0x6E, 0x66);
    let biz = tld_at(url, pos, 0x62, 0x69, 0x7A);
    let gov = tld_at(url, pos, 0x67, 0x6F, 0x76);
    let slash = byte_is(url, pos, 4, 0x2F);
    let end = url.len() - pos == 4;
    if com && slash {
        (0x00, 5)
    } else if org && slash {
        (0x01, 5)
    } else if edu && slash {
        (0x02, 5)
    } else if net && slash {
        (0x03, 5)
    } else if inf && byte_is(url, pos, 4, 0x6F) {
        if byte_is(url, pos, 5, 0x2F) {
            (0x04, 6)
        } else {
            (0x0B, 5)
        }
    } else if biz && slash {
        (0x05, 5)
    } else if gov && slash {
        (0x06, 5)
    } else if com && end {
        (0x07, 4)
    } else if org && end {
        (0x08, 4)
    } else if edu && end {
        (0x09, 4)
    } else if net && end {
        (0x0A, 4)
    } else if biz && end {
        (0x0C, 4)
    } else if gov && end {
        (0x0D, 4)
    } else {
        (url[pos], 1)
    }
}

/// Compresses `url` into its Eddystone-URL encoding.
pub fn encode_eddystone_url(url: &[u8]) -> (r: Vec<u8>)
    ensures
        r@ == encode_url(url@),
{
    let mut out: Vec<u8> = Vec::new();
    let mut pos: usize = 0;
    assert(url@.skip(0) =~= url@);
    while url.len() - pos >= 4
        invariant
            pos <= url@.len(),
            encode_url(url@) == out@ + encode_url(url@.skip(pos as int)),
        decreases url@.len() - pos,
    {
        let (byte, taken) = expansion_at(url, pos);
        proof {
            lemma_url_expansion_advances(url@.skip(pos as int));
            assert(url@.skip(pos as int).skip(taken as int) =~= url@.skip(pos + taken));
        }
        out.push(byte);
        pos = pos + taken;
    }
    append_from(&mut out, url, pos);
    proof {
        assert(url@.skip(pos as int).len() < 4);
    }
    out
}

impl AdPacket {
    /// Constructs an [Eddystone-URL] Advertisement Data packet.
    ///
    /// The caller owes that the encoded URL fits the packet.
    ///
    /// [Eddystone-URL]: https://github.com/google/eddystone/tree/master/eddystone-url
    pub fn eddystone_url(tx_power: u8, url_scheme: EddystoneUrlScheme, url: &str) -> (r: AdPacket)
        requires
            encode_url(url.spec_bytes()).len() <= 20,
        ensures
            r@ == ad_structure(AdType::CompleteListOf16BitServiceClassUuids, seq![0xAAu8, 0xFE])
                + ad_structure(
                AdType::ServiceData16BitUuid,
                seq![0xAAu8, 0xFE, 0x10, tx_power, url_scheme.number()] + encode_url(url.spec_bytes()),
            ),
    {
        let mut service_data: Vec<u8> = vec![
            0xAA,  // Eddystone ID
            0xFE,
            0x10,  // Frame type
            tx_power,
            url_scheme.to_number(),
        ];
        let encoded = encode_eddystone_url(url.as_bytes());
        let mut i: usize = 0;
        while i < encoded.len()
            invariant
                i <= encoded@.len(),
                service_data@ == seq![0xAAu8, 0xFE, 0x10, tx_power, url_scheme.number()]
                    + encoded@.take(i as int),
            decreases encoded@.len() - i,
        {
            assert(encoded@.take(i + 1) =~= encoded@.take(i as int).push(encoded@[i as int]));
            service_data.push(encoded[i]);
            i = i + 1;
        }
        assert(encoded@.take(i as int) =~= encoded@);
        let mut packet = AdPacket::empty();
        // Service list containing the Eddystone ID.
        let _ = packet.push(AdType::CompleteListOf16BitServiceClassUuids, [0xAA, 0xFE]);
        // Eddystone-URL AD structure.
        let _ = packet.push_var(AdType::ServiceData16BitUuid, service_data.as_slice());
        packet
    }
}

#[verifier::external_type_specification]
#[verifier::external_body]
pub struct ExUuid(uuid::Uuid);

/// The 16 bytes that `uuid` holds, most significant first, as `uuid::Uuid::as_bytes`
/// hands them back.
pub uninterp spec fn uuid_bytes_of(uuid: uuid::Uuid) -> Seq<u8>;

/// Calls `uuid::Uuid::as_bytes`, which hands back the 16 bytes the UUID holds.
#[verifier::external_body]
fn uuid_bytes(uuid: &uuid::Uuid) -> (r: [u8; 16])
    ensures
        r@ == uuid_bytes_of(*uuid),
{
    *uuid.as_bytes()
}

impl AdPacket {
    /// Constructs an iBeacon Advertisement Data packet.
    ///
    /// `signal_power` is the calibrated RSSI at 1 metre.
    pub fn i_beacon(uuid: uuid::Uuid, major: u16, minor: u16, signal_power: u8) -> (r: AdPacket)
        ensures
            uuid_bytes_of(uuid).len() == 16,
            r@ == ad_structure(AdType::Flags, seq![0x06u8]) + ad_structure(
                AdType::ManufacturerSpecificData,
                i_beacon_data(uuid_bytes_of(uuid), major, minor, signal_power),
            ),
    {
        let bytes = uuid_bytes(&uuid);
        AdPacket::i_beacon_from_bytes(bytes, major, minor, signal_power)
    }
}

/// The firmware's number for a public address (`GapAddressTypePublic`).
pub const ADDRESS_TYPE_PUBLIC: u8 = 0;

/// The firmware's number for a random address (`GapAddressTypeRandom`).
pub const ADDRESS_TYPE_RANDOM: u8 = 1;

/// Advertise on all three advertising channels (`GapAdvChannelMapAll`).
pub const ADV_CHANNEL_MAP_ALL: u8 = 0b111;

/// Advertise at 0 dBm (`GapAdvPowerLevel_0dBm`).
pub const ADV_POWER_LEVEL_0DBM: u8 = 0x19;

/// The configuration of the beacon: advertising intervals, channels, power and address.
#[derive(Clone, Copy, Debug, PartialEq, Eq)]
pub struct BeaconConfig {
    pub min_adv_interval_ms: u16,
    pub max_adv_interval_ms: u16,
    pub adv_channel_map: u8,
    pub adv_power_level: u8,
    pub address_type: u8,
    pub address: [u8; 6],
}

/// `address` made a random static address: the two most significant bits of its last byte
/// (the most significant byte) set to 1.
pub open spec fn spec_random_static(address: Seq<u8>) -> Seq<u8> {
    address.update(5, address[5] | 0b1100_0000)
}

/// Makes `address` a random static address by setting the two most significant bits of its
/// last byte to 1 (random static addresses are only 46 bits).
pub fn random_static_address(address: [u8; 6]) -> (r: [u8; 6])
    ensures
        r@ == spec_random_static(address@),
        r@[5] >= 0b1100_0000,
{
    let mut r = address;
    r[5] = address[5] | 0b1100_0000;
    let b = address[5];
    assert(b | 0b1100_0000u8 >= 0b1100_0000u8) by (bit_vector);
    r
}

impl Address {
    /// The address that `config` broadcasts from, or `None` if its address type is unknown.
    pub open spec fn spec_from_config(config: BeaconConfig) -> Option<Address> {
        if config.address_type == ADDRESS_TYPE_PUBLIC {
            Some(Address::Public(config.address))
        } else if config.address_type == ADDRESS_TYPE_RANDOM {
            Some(Address::RandomStatic(config.address))
        } else {
            None
        }
    }

    /// The address that a beacon configuration broadcasts from, or `None` if its address
    /// type is unknown.
    pub fn from_config(config: &BeaconConfig) -> (r: Option<Address>)
        ensures
            r == Address::spec_from_config(*config),
    {
        if config.address_type == ADDRESS_TYPE_PUBLIC {
            Some(Address::Public(config.address))
        } else if config.address_type == ADDRESS_TYPE_RANDOM {
            Some(Address::RandomStatic(config.address))
        } else {
            None
        }
    }
}

impl BeaconConfig {
    /// The configuration a beacon is given when it has none: advertising every 50 to 150
    /// ms on all channels at 0 dBm, from the random static address made of `random`.
    pub fn default_with_random(random: [u8; 6]) -> (r: BeaconConfig)
        ensures
            r.min_adv_interval_ms == 50,
            r.max_adv_interval_ms == 150,
            r.adv_channel_map == ADV_CHANNEL_MAP_ALL,
            r.adv_power_level == ADV_POWER_LEVEL_0DBM,
            r.address_type == ADDRESS_TYPE_RANDOM,
            r.address@ == spec_random_static(random@),
    {
        BeaconConfig {
            min_adv_interval_ms: 50,
            max_adv_interval_ms: 150,
            adv_channel_map: ADV_CHANNEL_MAP_ALL,
            adv_power_level: ADV_POWER_LEVEL_0DBM,
            address_type: ADDRESS_TYPE_RANDOM,
            address: random_static_address(random),
        }
    }

    /// Checks a configuration found on the beacon: an error if its address type is
    /// unknown.
    pub fn check_existing(self) -> (r: Result<BeaconConfig, Error>)
        ensures
            r == (if Address::spec_from_config(self) is Some {
                Ok::<BeaconConfig, Error>(self)
            } else {
                Err(Error::UnknownAddressType)
            }),
    {
        match Address::from_config(&self) {
            Some(_) => Ok(self),
            None => Err(Error::UnknownAddressType),
        }
    }

    /// `r` is this configuration broadcasting from `address`: the advertising settings are
    /// kept, and a random static address has the two most significant bits of its last byte
    /// set to 1.
    pub open spec fn is_with_address(self, address: Address, r: BeaconConfig) -> bool {
        &&& r.min_adv_interval_ms == self.min_adv_interval_ms
        &&& r.max_adv_interval_ms == self.max_adv_interval_ms
        &&& r.adv_channel_map == self.adv_channel_map
        &&& r.adv_power_level == self.adv_power_level
        &&& match address {
            Address::Public(a) => r.address_type == ADDRESS_TYPE_PUBLIC && r.address@ == a@,
            Address::RandomStatic(a) => r.address_type == ADDRESS_TYPE_RANDOM && r.address@
                == spec_random_static(a@),
        }
    }

    /// This configuration broadcasting from `address`; a random static address has the two
    /// most significant bits of its last byte set to 1.
    pub fn with_address(self, address: Address) -> (r: BeaconConfig)
        ensures
            self.is_with_address(address, r),
    {
        let mut config = self;
        match address {
            Address::Public(a) => {
                config.address_type = ADDRESS_TYPE_PUBLIC;
                config.address = a;
            },
            Address::RandomStatic(a) => {
                config.address_type = ADDRESS_TYPE_RANDOM;
                config.address = random_static_address(a);
            },
        }
        config
    }
}

/// The beacon's state as this library keeps it: its configuration, whose address type is
/// always known, and the last data packet that was set.
pub struct Beacon {
    config: BeaconConfig,
    data: [u8; BEACON_MAX_DATA_SIZE],
    data_len: usize,
}

impl Beacon {
    #[verifier::type_invariant]
    spec fn inv(self) -> bool {
        &&& Address::spec_from_config(self.config) is Some
        &&& self.data_len <= BEACON_MAX_DATA_SIZE
    }

    /// The configuration of the beacon.
    pub closed spec fn spec_config(self) -> BeaconConfig {
        self.config
    }

    /// The last data packet set on the beacon.
    pub closed spec fn spec_data(self) -> Seq<u8> {
        self.data@.take(self.data_len as int)
    }

    /// The beacon with the configuration `config` and the first `data_len` bytes of `data`
    /// as its data; an error if the address type of `config` is unknown.
    pub fn new(config: BeaconConfig, data: [u8; BEACON_MAX_DATA_SIZE], data_len: usize) -> (r: Result<
        Beacon,
        Error,
    >)
        requires
            data_len <= BEACON_MAX_DATA_SIZE,
        ensures
            r is Ok <==> Address::spec_from_config(config) is Some,
            r matches Err(e) ==> e == Error::UnknownAddressType,
            r matches Ok(b) ==> b.spec_config() == config && b.spec_data() == data@.take(data_len as int),
    {
        match Address::from_config(&config) {
            Some(_) => Ok(Beacon { config, data, data_len }),
            None => Err(Error::UnknownAddressType),
        }
    }

    /// The configuration of the beacon.
    pub fn config(&self) -> (r: BeaconConfig)
        ensures
            r == self.spec_config(),
    {
        self.config
    }

    /// The current beacon address.
    pub fn address(&self) -> (r: Address)
        ensures
            Address::spec_from_config(self.spec_config()) == Some(r),
    {
        proof {
            use_type_invariant(self);
        }
        match Address::from_config(&self.config) {
            Some(address) => address,
            None => Address::Public(self.config.address),
        }
    }

    /// The last configured beacon data.
    pub fn data(&self) -> (r: &[u8])
        ensures
            r@ == self.spec_data(),
    {
        proof {
            use_type_invariant(self);
        }
        &self.data[0..self.data_len]
    }

    /// Configures the beacon address. A random static address has the two most
    /// significant bits of its last byte set to 1 (random static addresses are only 46 bits).
    /// The data is kept.
    pub fn set_address(&mut self, address: Address)
        ensures
            old(self).spec_config().is_with_address(address, final(self).spec_config()),
            final(self).spec_data() == old(self).spec_data(),
    {
        proof {
            use_type_invariant(&*self);
        }
        let config = self.config.with_address(address);
        self.config = config;
    }

    /// Records `packet` as the beacon data. The configuration is kept.
    pub fn set_data(&mut self, packet: &AdPacket)
        ensures
            final(self).spec_data() == packet@,
            final(self).spec_config() == old(self).spec_config(),
    {
        proof {
            use_type_invariant(packet);
        }
        proof {
            use_type_invariant(&*self);
        }
        let data = packet.data;
        let data_len = packet.data_len;
        self.data = data;
        self.data_len = data_len;
    }
}

/// Configuring an address and reading it back gives that address, up to the two bits that
/// a random static address forces.
pub proof fn lemma_set_address_then_read(config: BeaconConfig, address: Address, r: BeaconConfig)
    requires
        config.is_with_address(address, r),
    ensures
        match (address, Address::spec_from_config(r)) {
            (Address::Public(a), Some(Address::Public(b))) => b@ == a@,
            (Address::RandomStatic(a), Some(Address::RandomStatic(b))) => b@ == spec_random_static(a@),
            _ => false,
        },
{
}

/// Setting an address and reading it back gives the address set, up to the bits that a
/// random static address forces; an address read back from a configuration is always
/// known.
pub proof fn lemma_address_round_trip(config: BeaconConfig, a: [u8; 6])
    ensures
        ({
            let c = BeaconConfig { address_type: ADDRESS_TYPE_PUBLIC, address: a, ..config };
            Address::spec_from_config(c) == Some(Address::Public(a))
        }),
        spec_random_static(spec_random_static(a@)) == spec_random_static(a@),
{
    let b = a@[5];
    assert((b | 0b1100_0000u8) | 0b1100_0000u8 == b | 0b1100_0000u8) by (bit_vector);
    assert(spec_random_static(spec_random_static(a@)) =~= spec_random_static(a@));
}

/// The firmware's numbers for every [`EddystoneUrlScheme`], one by one, as the firmware's
/// enumeration lists them.
pub proof fn lemma_eddystone_url_scheme_numbers()
    ensures
        EddystoneUrlScheme::HttpWww.number() == 0x00,
        EddystoneUrlScheme::HttpsWww.number() == 0x01,
        EddystoneUrlScheme::Http.number() == 0x02,
        EddystoneUrlScheme::Https.number() == 0x03,
{
}

} // verus!
