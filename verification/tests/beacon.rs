use flipperzero::bluetooth::beacon::{
    encode_eddystone_url, random_static_address, AdPacket, AdType, Address, BeaconConfig,
    EddystoneUrlScheme, Error, ADDRESS_TYPE_PUBLIC, ADDRESS_TYPE_RANDOM, BEACON_MAX_DATA_SIZE,
};

#[test]
fn empty_packet_has_no_data() {
    let p = AdPacket::empty();
    assert_eq!(p.data(), &[] as &[u8]);
    assert_eq!(p.len(), 0);
}

#[test]
fn push_appends_structures() {
    let mut p = AdPacket::empty();
    assert_eq!(p.push(AdType::Flags, [0x06]), Ok(()));
    assert_eq!(p.push_var(AdType::CompleteLocalName, b"Flip"), Ok(()));
    assert_eq!(p.data(), &[2, 0x01, 0x06, 5, 0x09, b'F', b'l', b'i', b'p']);
}

#[test]
fn push_rejects_too_long_and_keeps_packet() {
    let mut p = AdPacket::empty();
    assert_eq!(p.push(AdType::ManufacturerSpecificData, [0u8; 29]), Ok(()));
    assert_eq!(p.len(), BEACON_MAX_DATA_SIZE);
    assert_eq!(p.push(AdType::Flags, [0x06]), Err(Error::DataTooLong));
    assert_eq!(p.len(), BEACON_MAX_DATA_SIZE);

    let mut q = AdPacket::empty();
    assert_eq!(q.push_var(AdType::Uri, &[1u8; 30]), Err(Error::DataTooLong));
    assert_eq!(q.len(), 0);
}

#[test]
fn with_chains_and_fails() {
    let p = AdPacket::empty()
        .with(AdType::Flags, [0x06])
        .unwrap()
        .with_var(AdType::TxPowerLevel, &[0xF4])
        .unwrap();
    assert_eq!(p.data(), &[2, 0x01, 0x06, 2, 0x0A, 0xF4]);
    assert!(matches!(
        AdPacket::empty().with(AdType::Flags, [0u8; 30]),
        Err(Error::DataTooLong)
    ));
}

#[test]
fn ad_type_numbers() {
    let mut p = AdPacket::empty();
    p.push(AdType::DeviceId, []).unwrap();
    p.push(AdType::SecurityManagerTkValue, []).unwrap();
    p.push(AdType::InformationData3D, []).unwrap();
    p.push(AdType::ElectronicShelfLabel, []).unwrap();
    assert_eq!(p.data(), &[1, 0x10, 1, 0x10, 1, 0x3D, 1, 0x34]);
}

#[test]
fn alt_beacon_packet() {
    let mut id = [0u8; 20];
    for (i, b) in id.iter_mut().enumerate() {
        *b = i as u8;
    }
    let p = AdPacket::alt_beacon(0x0118, id, -59, 0x42).unwrap();
    let data = p.data();
    assert_eq!(data.len(), 28);
    assert_eq!(&data[..6], &[27, 0xFF, 0x18, 0x01, 0xBE, 0xAC]);
    assert_eq!(&data[6..26], &id);
    assert_eq!(&data[26..], &[(-59i8) as u8, 0x42]);
}

#[test]
fn alt_beacon_rejects_rssi_out_of_range() {
    assert!(AdPacket::alt_beacon(1, [0; 20], 1, 0).is_none());
    assert!(AdPacket::alt_beacon(1, [0; 20], -128, 0).is_none());
    assert!(AdPacket::alt_beacon(1, [0; 20], -127, 0).is_some());
    assert!(AdPacket::alt_beacon(1, [0; 20], 0, 0).is_some());
}

#[test]
fn i_beacon_packet() {
    let uuid_bytes = [
        0xa1, 0xa2, 0xa3, 0xa4, 0xb1, 0xb2, 0xc1, 0xc2, 0xd1, 0xd2, 0xd3, 0xd4, 0xd5, 0xd6, 0xd7,
        0xd8,
    ];
    let uuid = uuid::Uuid::from_bytes(uuid_bytes);
    let p = AdPacket::i_beacon(uuid, 0x1234, 0xABCD, 0xC5);
    let data = p.data();
    assert_eq!(data.len(), 30);
    assert_eq!(&data[..7], &[2, 0x01, 0x06, 26, 0xFF, 0x4C, 0x00]);
    assert_eq!(&data[7..9], &[0x02, 0x15]);
    assert_eq!(&data[9..25], &uuid_bytes);
    assert_eq!(&data[25..], &[0x12, 0x34, 0xAB, 0xCD, 0xC5]);
    let q = AdPacket::i_beacon_from_bytes(uuid_bytes, 0x1234, 0xABCD, 0xC5);
    assert_eq!(q.data(), data);
}

#[test]
fn eddystone_url_compression() {
    assert_eq!(encode_eddystone_url(b"example.com/"), b"example\x00".to_vec());
    assert_eq!(encode_eddystone_url(b"example.com"), b"example\x07".to_vec());
    assert_eq!(encode_eddystone_url(b"a.info/x"), b"a\x04x".to_vec());
    assert_eq!(encode_eddystone_url(b"a.info"), b"a\x0B".to_vec());
    assert_eq!(encode_eddystone_url(b"x.gov"), b"x\x0D".to_vec());
    assert_eq!(encode_eddystone_url(b"a.comx"), b"a.comx".to_vec());
    assert_eq!(encode_eddystone_url(b".co"), b".co".to_vec());
    assert_eq!(encode_eddystone_url(b""), b"".to_vec());
}

#[test]
fn eddystone_url_packet() {
    let p = AdPacket::eddystone_url(0xEE, EddystoneUrlScheme::Https, "goo.gl/S6zT6P");
    let mut expected = vec![3, 0x03, 0xAA, 0xFE];
    let service: &[u8] = b"goo.gl/S6zT6P";
    expected.push((1 + 5 + service.len()) as u8);
    expected.extend_from_slice(&[0x16, 0xAA, 0xFE, 0x10, 0xEE, 0x03]);
    expected.extend_from_slice(service);
    assert_eq!(p.data(), expected.as_slice());

    let q = AdPacket::eddystone_url(0, EddystoneUrlScheme::HttpWww, "flipper.net/");
    assert_eq!(
        q.data(),
        &[3, 0x03, 0xAA, 0xFE, 14, 0x16, 0xAA, 0xFE, 0x10, 0, 0x00, b'f', b'l', b'i', b'p', b'p', b'e', b'r', 0x03]
    );
}

#[test]
fn random_static_address_sets_top_bits() {
    assert_eq!(random_static_address([1, 2, 3, 4, 5, 0x06]), [1, 2, 3, 4, 5, 0xC6]);
    assert_eq!(random_static_address([0; 6]), [0, 0, 0, 0, 0, 0xC0]);
}

#[test]
fn beacon_config_addresses() {
    let c = BeaconConfig::default_with_random([9, 9, 9, 9, 9, 0x01]);
    assert_eq!(c.min_adv_interval_ms, 50);
    assert_eq!(c.max_adv_interval_ms, 150);
    assert_eq!(c.address_type, ADDRESS_TYPE_RANDOM);
    assert_eq!(Address::from_config(&c), Some(Address::RandomStatic([9, 9, 9, 9, 9, 0xC1])));

    let p = c.with_address(Address::Public([1, 2, 3, 4, 5, 6]));
    assert_eq!(p.address_type, ADDRESS_TYPE_PUBLIC);
    assert_eq!(Address::from_config(&p), Some(Address::Public([1, 2, 3, 4, 5, 6])));
    assert_eq!(p.check_existing(), Ok(p));

    let unknown = BeaconConfig { address_type: 7, ..p };
    assert_eq!(Address::from_config(&unknown), None);
    assert_eq!(unknown.check_existing(), Err(Error::UnknownAddressType));
}

#[test]
fn push_and_push_var_agree() {
    let mut a = AdPacket::empty();
    let mut b = AdPacket::empty();
    assert_eq!(a.push_var(AdType::Flags, &[0x06]), b.push(AdType::Flags, [0x06]));
    assert_eq!(a.data(), b.data());
    let long = [7u8; 27];
    assert_eq!(a.push_var(AdType::ManufacturerSpecificData, &long), Err(Error::DataTooLong));
    assert_eq!(b.push(AdType::ManufacturerSpecificData, long), Err(Error::DataTooLong));
    assert_eq!(a.data(), &[2, 0x01, 0x06]);
    assert_eq!(a.data(), b.data());
    let c = AdPacket::empty().with(AdType::Flags, [0x06]).unwrap();
    assert_eq!(c.data(), a.data());
    assert!(matches!(c.with(AdType::ManufacturerSpecificData, long), Err(Error::DataTooLong)));
}
