//! The dolphin's deeds and the apps that generate them, with the firmware's numbers for
//! both.

use vstd::prelude::*;

verus! {

/// Flipper Zero apps that can generate [`Deed`]s.
///
/// This list may grow over time; a number the list does not know is kept as
/// [`App::Uncategorized`].
#[derive(Clone, Copy, Debug, PartialEq, Eq, Structural)]
pub enum App {
    SubGhz,
    Rfid,
    Nfc,
    Ir,
    Ibutton,
    Badusb,
    Plugin,
    /// Any app number of the firmware that is not part of this list.
    Uncategorized(u8),
}

impl App {
    /// The firmware's number for this app (its place in the firmware's enumeration).
    pub open spec fn raw(self) -> u8 {
        match self {
            App::SubGhz => 0,
            App::Rfid => 1,
            App::Nfc => 2,
            App::Ir => 3,
            App::Ibutton => 4,
            App::Badusb => 5,
            App::Plugin => 6,
            App::Uncategorized(raw) => raw,
        }
    }

    /// The app with the firmware's number `raw`: a known number names its app, any other
    /// is kept as [`App::Uncategorized`].
    pub open spec fn spec_from_raw(raw: u8) -> App {
        if raw == 0 {
            App::SubGhz
        } else if raw == 1 {
            App::Rfid
        } else if raw == 2 {
            App::Nfc
        } else if raw == 3 {
            App::Ir
        } else if raw == 4 {
            App::Ibutton
        } else if raw == 5 {
            App::Badusb
        } else if raw == 6 {
            App::Plugin
        } else {
            App::Uncategorized(raw)
        }
    }

    /// Returns the app with the firmware's number `raw`.
    pub fn from_raw(raw: u8) -> (r: App)
        ensures
            r == App::spec_from_raw(raw),
    {
        match raw {
            0 => App::SubGhz,
            1 => App::Rfid,
            2 => App::Nfc,
            3 => App::Ir,
            4 => App::Ibutton,
            5 => App::Badusb,
            6 => App::Plugin,
            raw => App::Uncategorized(raw),
        }
    }

    /// Returns the firmware's number for this app.
    pub fn to_raw(self) -> (r: u8)
        ensures
            r == self.raw(),
    {
        match self {
            App::SubGhz => 0,
            App::Rfid => 1,
            App::Nfc => 2,
            App::Ir => 3,
            App::Ibutton => 4,
            App::Badusb => 5,
            App::Plugin => 6,
            App::Uncategorized(raw) => raw,
        }
    }
}

/// Every firmware number survives the trip to an [`App`] and back; an app that is not an
/// [`App::Uncategorized`] hiding a known number survives the trip to its number and back.
pub proof fn lemma_app_round_trip(raw: u8, app: App)
    ensures
        App::spec_from_raw(raw).raw() == raw,
        !(app matches App::Uncategorized(k) && k < 7) ==> App::spec_from_raw(app.raw()) == app,
{
}

/// Deeds that can contribute to the level of the dolphin.
///
/// This list may grow over time; a number the list does not know is kept as
/// [`Deed::Uncategorized`].
#[derive(Clone, Copy, Debug, PartialEq, Eq, Structural)]
pub enum Deed {
    SubGhzReceiverInfo,
    SubGhzSave,
    SubGhzRawRec,
    SubGhzAddManually,
    SubGhzSend,
    SubGhzFrequencyAnalyzer,
    RfidRead,
    RfidReadSuccess,
    RfidSave,
    RfidEmulate,
    RfidAdd,
    NfcRead,
    NfcReadSuccess,
    NfcSave,
    NfcDetectReader,
    NfcEmulate,
    NfcMfcAdd,
    NfcAddSave,
    NfcAddEmulate,
    IrSend,
    IrLearnSuccess,
    IrSave,
    IbuttonRead,
    IbuttonReadSuccess,
    IbuttonSave,
    IbuttonEmulate,
    IbuttonAdd,
    BadUsbPlayScript,
    U2fAuthorized,
    GpioUartBridge,
    PluginStart,
    PluginGameStart,
    PluginGameWin,
    /// Any deed number of the firmware that is not part of this list.
    Uncategorized(u8),
}

impl Deed {
    /// The firmware's number for this deed (its place in the firmware's enumeration).
    pub open spec fn raw(self) -> u8 {
        match self {
            Deed::SubGhzReceiverInfo => 0,
            Deed::SubGhzSave => 1,
            Deed::SubGhzRawRec => 2,
            Deed::SubGhzAddManually => 3,
            Deed::SubGhzSend => 4,
            Deed::SubGhzFrequencyAnalyzer => 5,
            Deed::RfidRead => 6,
            Deed::RfidReadSuccess => 7,
            Deed::RfidSave => 8,
            Deed::RfidEmulate => 9,
            Deed::RfidAdd => 10,
            Deed::NfcRead => 11,
            Deed::NfcReadSuccess => 12,
            Deed::NfcSave => 13,
            Deed::NfcDetectReader => 14,
            Deed::NfcEmulate => 15,
            Deed::NfcMfcAdd => 16,
            Deed::NfcAddSave => 17,
            Deed::NfcAddEmulate => 18,
            Deed::IrSend => 19,
            Deed::IrLearnSuccess => 20,
            Deed::IrSave => 21,
            Deed::IbuttonRead => 22,
            Deed::IbuttonReadSuccess => 23,
            Deed::IbuttonSave => 24,
            Deed::IbuttonEmulate => 25,
            Deed::IbuttonAdd => 26,
            Deed::BadUsbPlayScript => 27,
            Deed::U2fAuthorized => 28,
            Deed::GpioUartBridge => 29,
            Deed::PluginStart => 30,
            Deed::PluginGameStart => 31,
            Deed::PluginGameWin => 32,
            Deed::Uncategorized(raw) => raw,
        }
    }

    /// Returns the firmware's number for this deed.
    pub fn to_raw(self) -> (r: u8)
        ensures
            r == self.raw(),
    {
        match self {
            Deed::SubGhzReceiverInfo => 0,
            Deed::SubGhzSave => 1,
            Deed::SubGhzRawRec => 2,
            Deed::SubGhzAddManually => 3,
            Deed::SubGhzSend => 4,
            Deed::SubGhzFrequencyAnalyzer => 5,
            Deed::RfidRead => 6,
            Deed::RfidReadSuccess => 7,
            Deed::RfidSave => 8,
            Deed::RfidEmulate => 9,
            Deed::RfidAdd => 10,
            Deed::NfcRead => 11,
            Deed::NfcReadSuccess => 12,
            Deed::NfcSave => 13,
            Deed::NfcDetectReader => 14,
            Deed::NfcEmulate => 15,
            Deed::NfcMfcAdd => 16,
            Deed::NfcAddSave => 17,
            Deed::NfcAddEmulate => 18,
            Deed::IrSend => 19,
            Deed::IrLearnSuccess => 20,
            Deed::IrSave => 21,
            Deed::IbuttonRead => 22,
            Deed::IbuttonReadSuccess => 23,
            Deed::IbuttonSave => 24,
            Deed::IbuttonEmulate => 25,
            Deed::IbuttonAdd => 26,
            Deed::BadUsbPlayScript => 27,
            Deed::U2fAuthorized => 28,
            Deed::GpioUartBridge => 29,
            Deed::PluginStart => 30,
            Deed::PluginGameStart => 31,
            Deed::PluginGameWin => 32,
            Deed::Uncategorized(raw) => raw,
        }
    }
}

/// Distinct listed deeds have distinct firmware numbers.
pub proof fn lemma_deed_numbers_distinct(a: Deed, b: Deed)
    requires
        !(a is Uncategorized),
        !(b is Uncategorized),
        a != b,
    ensures
        a.raw() != b.raw(),
{
}

/// The firmware's numbers for every [`App`], one by one, as the firmware's
/// enumeration lists them.
pub proof fn lemma_app_numbers()
    ensures
        App::SubGhz.raw() == 0,
        App::Rfid.raw() == 1,
        App::Nfc.raw() == 2,
        App::Ir.raw() == 3,
        App::Ibutton.raw() == 4,
        App::Badusb.raw() == 5,
        App::Plugin.raw() == 6,
{
}

/// The firmware's numbers for every [`Deed`], one by one, as the firmware's
/// enumeration lists them.
pub proof fn lemma_deed_numbers()
    ensures
        Deed::SubGhzReceiverInfo.raw() == 0,
        Deed::SubGhzSave.raw() == 1,
        Deed::SubGhzRawRec.raw() == 2,
        Deed::SubGhzAddManually.raw() == 3,
        Deed::SubGhzSend.raw() == 4,
        Deed::SubGhzFrequencyAnalyzer.raw() == 5,
        Deed::RfidRead.raw() == 6,
        Deed::RfidReadSuccess.raw() == 7,
        Deed::RfidSave.raw() == 8,
        Deed::RfidEmulate.raw() == 9,
        Deed::RfidAdd.raw() == 10,
        Deed::NfcRead.raw() == 11,
        Deed::NfcReadSuccess.raw() == 12,
        Deed::NfcSave.raw() == 13,
        Deed::NfcDetectReader.raw() == 14,
        Deed::NfcEmulate.raw() == 15,
        Deed::NfcMfcAdd.raw() == 16,
        Deed::NfcAddSave.raw() == 17,
        Deed::NfcAddEmulate.raw() == 18,
        Deed::IrSend.raw() == 19,
        Deed::IrLearnSuccess.raw() == 20,
        Deed::IrSave.raw() == 21,
        Deed::IbuttonRead.raw() == 22,
        Deed::IbuttonReadSuccess.raw() == 23,
        Deed::IbuttonSave.raw() == 24,
        Deed::IbuttonEmulate.raw() == 25,
        Deed::IbuttonAdd.raw() == 26,
        Deed::BadUsbPlayScript.raw() == 27,
        Deed::U2fAuthorized.raw() == 28,
        Deed::GpioUartBridge.raw() == 29,
        Deed::PluginStart.raw() == 30,
        Deed::PluginGameStart.raw() == 31,
        Deed::PluginGameWin.raw() == 32,
{
}

} // verus!
