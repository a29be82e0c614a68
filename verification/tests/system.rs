use flipperzero::bluetooth::beacon::{
    AdPacket, AdType, Address, Beacon, BeaconConfig, Error as BeaconError, ADDRESS_TYPE_PUBLIC,
    ADDRESS_TYPE_RANDOM, BEACON_MAX_DATA_SIZE,
};
use flipperzero::dialogs::DialogFileBrowserOptions;
use flipperzero::dolphin::{App, Deed};
use flipperzero::filesystem::{
    SeekFrom, STREAM_OFFSET_FROM_CURRENT, STREAM_OFFSET_FROM_END, STREAM_OFFSET_FROM_START,
};
use flipperzero::furi::event_flag::{wait_options, FLAG_NO_CLEAR, FLAG_WAIT_ALL, FLAG_WAIT_ANY};
use flipperzero::furi::kernel::{lock_result, LockState};
use flipperzero::furi::status::status_result;
use flipperzero::furi::thread::{sleep_delay, sleep_delay_for, SleepDelay};
use flipperzero::furi::Error;

#[test]
fn dolphin_app_numbers() {
    assert_eq!(App::from_raw(0), App::SubGhz);
    assert_eq!(App::from_raw(6), App::Plugin);
    assert_eq!(App::from_raw(7), App::Uncategorized(7));
    for raw in 0..=255u8 {
        assert_eq!(App::from_raw(raw).to_raw(), raw);
    }
    assert_eq!(App::Badusb.to_raw(), 5);
}

#[test]
fn dolphin_deed_numbers() {
    assert_eq!(Deed::SubGhzReceiverInfo.to_raw(), 0);
    assert_eq!(Deed::RfidRead.to_raw(), 6);
    assert_eq!(Deed::NfcRead.to_raw(), 11);
    assert_eq!(Deed::IrSend.to_raw(), 19);
    assert_eq!(Deed::IbuttonRead.to_raw(), 22);
    assert_eq!(Deed::BadUsbPlayScript.to_raw(), 27);
    assert_eq!(Deed::PluginGameWin.to_raw(), 32);
    assert_eq!(Deed::Uncategorized(200).to_raw(), 200);
}

#[test]
fn furi_error_codes() {
    assert!(matches!(Error::from(0xFFFF_FFFF), Error::Generic));
    assert!(matches!(Error::from(0xFFFF_FFFE), Error::Timeout));
    assert!(matches!(Error::from(0xFFFF_FFFD), Error::Resource));
    assert!(matches!(Error::from(0xFFFF_FFFC), Error::Parameter));
    assert!(matches!(Error::from(0xFFFF_FFFB), Error::NoMemory));
    assert!(matches!(Error::from(0xFFFF_FFFA), Error::ISR));
    assert!(matches!(Error::from(0xFFFF_FFF9), Error::Other(0xFFFF_FFF9)));
    assert!(matches!(Error::from(5), Error::Other(5)));
}

#[test]
fn status_words() {
    assert_eq!(status_result(0), Ok(()));
    assert_eq!(status_result(0xFFFF_FFFE), Err(Error::Timeout));
    assert_eq!(status_result(3), Err(Error::Other(3)));
}

#[test]
fn kernel_lock_results() {
    assert_eq!(lock_result(0), Ok(LockState::Unlocked));
    assert_eq!(lock_result(1), Ok(LockState::Locked));
    assert_eq!(lock_result(-1), Err(Error::Generic));
    assert_eq!(lock_result(-6), Err(Error::ISR));
    assert_eq!(lock_result(-7), Err(Error::Other(0xFFFF_FFF9)));
}

#[test]
fn sleep_delays() {
    assert_eq!(sleep_delay(1_500_000), SleepDelay::Micros(1500));
    assert_eq!(sleep_delay(3_599_999_999_999), SleepDelay::Micros(3_599_999_999));
    assert_eq!(sleep_delay(3_600_000_000_000), SleepDelay::Millis(3_600_000));
    assert_eq!(
        sleep_delay_for(core::time::Duration::from_millis(20)),
        SleepDelay::Micros(20_000)
    );
    assert_eq!(
        sleep_delay_for(core::time::Duration::from_secs(7200)),
        SleepDelay::Millis(7_200_000)
    );
}

#[test]
fn event_flag_wait_options() {
    assert_eq!(wait_options(false, true), FLAG_WAIT_ANY);
    assert_eq!(wait_options(true, true), FLAG_WAIT_ALL);
    assert_eq!(wait_options(false, false), FLAG_WAIT_ANY | FLAG_NO_CLEAR);
    assert_eq!(wait_options(true, false), 3);
}

#[test]
fn file_browser_options_builders() {
    let options = DialogFileBrowserOptions::new();
    assert_eq!(options.extension, &[b'*', 0][..]);
    assert!(options.base_path.is_none());
    assert!(options.skip_assets);
    assert!(!options.hide_dot_files);
    assert!(options.hide_ext);

    let ext = b"txt\0";
    let base = b"/ext\0";
    let options = options
        .set_extension(ext)
        .set_base_path(base)
        .set_skip_assets(false)
        .set_hide_dot_files(true)
        .set_hide_ext(false);
    assert_eq!(options.extension, &ext[..]);
    assert_eq!(options.base_path, Some(&base[..]));
    assert!(!options.skip_assets);
    assert!(options.hide_dot_files);
    assert!(!options.hide_ext);
}

#[test]
fn seek_offsets() {
    assert_eq!(SeekFrom::Start(5).stream_offset(), (STREAM_OFFSET_FROM_START, 5));
    assert_eq!(SeekFrom::End(-3).stream_offset(), (STREAM_OFFSET_FROM_END, -3));
    assert_eq!(SeekFrom::Current(0).stream_offset(), (STREAM_OFFSET_FROM_CURRENT, 0));
}

fn config_with_type(address_type: u8) -> BeaconConfig {
    BeaconConfig {
        min_adv_interval_ms: 50,
        max_adv_interval_ms: 150,
        adv_channel_map: 0b111,
        adv_power_level: 0x19,
        address_type,
        address: [1, 2, 3, 4, 5, 6],
    }
}

#[test]
fn beacon_state_keeps_address_and_data() {
    let mut data = [0u8; BEACON_MAX_DATA_SIZE];
    data[0] = 9;
    data[1] = 8;
    let mut beacon = Beacon::new(config_with_type(ADDRESS_TYPE_PUBLIC), data, 2).unwrap();
    assert_eq!(beacon.address(), Address::Public([1, 2, 3, 4, 5, 6]));
    assert_eq!(beacon.data(), &[9, 8]);

    beacon.set_address(Address::RandomStatic([6, 5, 4, 3, 2, 1]));
    assert_eq!(beacon.address(), Address::RandomStatic([6, 5, 4, 3, 2, 0b1100_0001]));
    assert_eq!(beacon.config().address_type, ADDRESS_TYPE_RANDOM);
    assert_eq!(beacon.data(), &[9, 8]);

    let packet = AdPacket::empty().with(AdType::Flags, [0x06]).unwrap();
    beacon.set_data(&packet);
    assert_eq!(beacon.data(), &[2, 0x01, 0x06]);
    assert_eq!(beacon.config().min_adv_interval_ms, 50);
}

#[test]
fn beacon_state_refuses_unknown_address_type() {
    let data = [0u8; BEACON_MAX_DATA_SIZE];
    assert!(matches!(
        Beacon::new(config_with_type(7), data, 0),
        Err(BeaconError::UnknownAddressType)
    ));
}
