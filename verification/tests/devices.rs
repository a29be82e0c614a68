use flipperzero::bluetooth::test_patterns::{
    packet_rx_command, packet_tx_command, tone_tx_command, Error as TestError, Pattern,
};
use flipperzero::dialogs::DialogMessageButton;
use flipperzero::filesystem::{Error as FsError, OpenOptions, FSAM_READ, FSAM_WRITE, FSOM_CREATE_ALWAYS, FSOM_OPEN_APPEND};
use flipperzero::furi::kernel::LockState;
use flipperzero::gpio::i2c::{
    framing, internal_battery_charger, internal_battery_fuel_gauge, internal_led_controller,
    transaction_plan, Bus, DeviceAddress, EmbeddedHalBus, I2cBegin, I2cEnd, Operation,
    OperationKind,
};
use flipperzero::furi::time::FuriDuration;
use flipperzero::input::{
    FromSysInputEventError, FromSysInputKeyError, FromSysInputTypeError, InputEvent,
    InputEventSequence, InputKey, InputType,
};

#[test]
fn lock_state_conversions() {
    assert_eq!(LockState::from(0), LockState::Unlocked);
    assert_eq!(LockState::from(1), LockState::Locked);
    assert_eq!(LockState::from(-3), LockState::Locked);
    assert_eq!(i32::from(LockState::Unlocked), 0);
    assert_eq!(i32::from(LockState::Locked), 1);
}

#[test]
fn input_event_sequence_decodes() {
    let sequence = InputEventSequence::from(0b10__000000_10101010_11110000_11111111u32);
    assert_eq!(0b10, sequence.source());
    assert_eq!(0b10101010_11110000_11111111, sequence.counter());
    assert_eq!(u32::from(sequence), 0b10__000000_10101010_11110000_11111111u32);
    let max = InputEventSequence::from(u32::MAX);
    assert_eq!(max.source(), 3);
    assert_eq!(max.counter(), 0x3FFF_FFFF);
}

#[test]
fn input_keys_and_types() {
    assert_eq!(InputKey::from_raw(4), Ok(InputKey::OK));
    assert_eq!(InputKey::from_raw(6), Err(FromSysInputKeyError::Max));
    assert_eq!(InputKey::from_raw(9), Err(FromSysInputKeyError::Invalid(9)));
    assert_eq!(InputType::from_raw(3), Ok(InputType::Long));
    assert_eq!(InputType::from_raw(5), Err(FromSysInputTypeError::Max));
    assert_eq!(InputKey::Back.to_raw(), 5);
    assert_eq!(InputType::Repeat.to_raw(), 4);
    let e = InputEvent::from_raw(7, 1, 0).unwrap();
    assert_eq!(e.key, InputKey::Down);
    assert_eq!(e.type_, InputType::Press);
    assert_eq!(e.to_raw(), (7, 1, 0));
    assert_eq!(
        InputEvent::from_raw(7, 8, 9),
        Err(FromSysInputEventError::InvalidKey(FromSysInputKeyError::Invalid(8)))
    );
    assert_eq!(
        InputEvent::from_raw(7, 0, 9),
        Err(FromSysInputEventError::InvalidType(FromSysInputTypeError::Invalid(9)))
    );
}

#[test]
fn device_addresses() {
    assert_eq!(DeviceAddress::new(0x30).as_8bit(), 0x60);
    assert_eq!(DeviceAddress::new(0x80), DeviceAddress::new(0x00));
    assert_eq!(DeviceAddress::new(0x55).as_7bit(), 0x55);
    assert_eq!(DeviceAddress::new(0xB0).as_7bit(), 0x30);
    assert_eq!(DeviceAddress::new(0xB0).as_8bit(), 0x60);
    assert_ne!(DeviceAddress::new(0x01), DeviceAddress::new(0x00));
    assert_eq!(format!("{:?}", DeviceAddress::new(0xB0)), "DeviceAddress(48)");
    assert_eq!(internal_led_controller(), DeviceAddress::new(0x30));
    assert_eq!(internal_battery_fuel_gauge(), DeviceAddress::new(0x55));
    assert_eq!(internal_battery_charger(), DeviceAddress::new(0x6B));
}

#[test]
fn transaction_framing() {
    let (read, write) = (OperationKind::Read, OperationKind::Write);
    assert_eq!(framing(read, Some(read)), (I2cEnd::Pause, I2cBegin::Resume));
    assert_eq!(framing(write, Some(read)), (I2cEnd::AwaitRestart, I2cBegin::Restart));
    assert_eq!(framing(write, None), (I2cEnd::Stop, I2cBegin::Start));
    assert_eq!(
        transaction_plan(&[write, write, read]),
        vec![
            (I2cBegin::Start, I2cEnd::Pause),
            (I2cBegin::Resume, I2cEnd::AwaitRestart),
            (I2cBegin::Restart, I2cEnd::Stop),
        ]
    );
    assert_eq!(transaction_plan(&[read]), vec![(I2cBegin::Start, I2cEnd::Stop)]);
    assert!(transaction_plan(&[]).is_empty());
    let mut buf = [0u8; 2];
    assert_eq!(Operation::Read(&mut buf).kind(), read);
    assert_eq!(Operation::Write(&[1, 2]).kind(), write);
}

#[test]
fn embedded_hal_bus_settings() {
    let mut bus = EmbeddedHalBus::new(Bus::EXTERNAL, FuriDuration(50));
    assert_eq!(bus.bus(), Bus::EXTERNAL);
    assert_eq!(bus.timeout(), FuriDuration(50));
    bus.set_timeout(FuriDuration(7));
    assert_eq!(bus.timeout(), FuriDuration(7));
    assert_eq!(bus.bus(), Bus::EXTERNAL);
}

#[test]
fn radio_test_commands() {
    assert_eq!(tone_tx_command(39, 6), Ok((39, 0x1F)));
    assert_eq!(tone_tx_command(40, 9), Err(TestError::InvalidChannel));
    assert_eq!(tone_tx_command(0, 7), Err(TestError::InvalidPower));
    assert_eq!(packet_tx_command(10, Pattern::AllOnes, 2), Ok((10, 4, 2)));
    assert_eq!(packet_tx_command(10, Pattern::AllOnes, 0), Err(TestError::InvalidDatarate));
    assert_eq!(packet_tx_command(41, Pattern::AllZeros, 0), Err(TestError::InvalidChannel));
    assert_eq!(packet_rx_command(0, 1), Ok((0, 1)));
    assert_eq!(packet_rx_command(0, 3), Err(TestError::InvalidDatarate));
}

#[test]
fn open_options_flags() {
    let o = OpenOptions::new().read(true).write(true).open_append(true).create_always(true);
    assert_eq!(o, OpenOptions(FSAM_READ | FSAM_WRITE, FSOM_OPEN_APPEND | FSOM_CREATE_ALWAYS));
    let o = o.write(false).open_append(false);
    assert_eq!(o, OpenOptions(FSAM_READ, FSOM_CREATE_ALWAYS));
    assert_eq!(OpenOptions::new(), OpenOptions(0, 0));
}

#[test]
fn fs_errors_and_buttons() {
    assert_eq!(FsError::from_sys(5), FsError::Denied);
    assert_eq!(FsError::AlreadyOpen.to_sys(), 9);
    assert_eq!(DialogMessageButton::from_sys(2), Some(DialogMessageButton::Center));
    assert_eq!(DialogMessageButton::from_sys(4), None);
}

use flipperzero::gpio::i2c::{transfer_result as i2c_transfer_result, Error as I2cError};
use flipperzero::gpio::spi::{
    check_duplex_lengths, external, transfer_result as spi_transfer_result, BusHandleKind,
    Error as SpiError, Internal, SpiSub,
};

#[test]
fn spi_sub_devices_pick_their_bus() {
    let ext = external();
    assert_eq!(ext.handle(), BusHandleKind::External);
    assert!(ext.needs_init());
    let cases = [
        (Internal::SubGhz, BusHandleKind::SubGhz),
        (Internal::Nfc, BusHandleKind::Nfc),
        (Internal::Display, BusHandleKind::Display),
        (Internal::SdFast, BusHandleKind::SdFast),
        (Internal::SdSlow, BusHandleKind::SdSlow),
    ];
    for (internal, handle) in cases {
        let sub = SpiSub::from(internal);
        assert_eq!(sub.handle(), handle);
        assert!(!sub.needs_init());
    }
}

#[test]
fn spi_transfer_checks() {
    assert_eq!(check_duplex_lengths(4, 4), Ok(()));
    assert_eq!(check_duplex_lengths(4, 3), Err(SpiError::DataLengthMismatch));
    assert_eq!(spi_transfer_result(true), Ok(()));
    assert_eq!(spi_transfer_result(false), Err(SpiError::TransferFailed));
    assert_eq!(i2c_transfer_result(true), Ok(()));
    assert_eq!(i2c_transfer_result(false), Err(I2cError::TransferFailed));
}
