//! Class codes assigned by the USB-IF.

use vstd::prelude::*;

verus! {

/// The base class of a device or of an interface.
#[derive(Clone, Copy, Debug, PartialEq, Eq, Structural)]
pub enum UsbBaseClass {
    /// Use the interface descriptors to find out what the device does.
    Unspecified,
    Audio,
    CDCControl,
    HID,
    Physical,
    StillImaging,
    Printer,
    MassStorage,
    Hub,
    CDCData,
    SmartCard,
    ContentSecurity,
    Video,
    PersonalHealthcare,
    AudioVideo,
    Billboard,
    TypeCBridge,
    BulkDisplay,
    MCTP,
    I3C,
    Diagnostic,
    WirelessController,
    Miscellaneous,
    ApplicationSpecific,
    VendorSpecific,
}

impl UsbBaseClass {
    /// The class code.
    pub open spec fn wire(self) -> u8 {
        match self {
            UsbBaseClass::Unspecified => 0x00,
            UsbBaseClass::Audio => 0x01,
            UsbBaseClass::CDCControl => 0x02,
            UsbBaseClass::HID => 0x03,
            UsbBaseClass::Physical => 0x05,
            UsbBaseClass::StillImaging => 0x06,
            UsbBaseClass::Printer => 0x07,
            UsbBaseClass::MassStorage => 0x08,
            UsbBaseClass::Hub => 0x09,
            UsbBaseClass::CDCData => 0x0A,
            UsbBaseClass::SmartCard => 0x0B,
            UsbBaseClass::ContentSecurity => 0x0D,
            UsbBaseClass::Video => 0x0E,
            UsbBaseClass::PersonalHealthcare => 0x0F,
            UsbBaseClass::AudioVideo => 0x10,
            UsbBaseClass::Billboard => 0x11,
            UsbBaseClass::TypeCBridge => 0x12,
            UsbBaseClass::BulkDisplay => 0x13,
            UsbBaseClass::MCTP => 0x14,
            UsbBaseClass::I3C => 0x3C,
            UsbBaseClass::Diagnostic => 0xDC,
            UsbBaseClass::WirelessController => 0xE0,
            UsbBaseClass::Miscellaneous => 0xEF,
            UsbBaseClass::ApplicationSpecific => 0xFE,
            UsbBaseClass::VendorSpecific => 0xFF,
        }
    }

    /// Whether some class has the given code.
    pub open spec fn known(code: u8) -> bool {
        exists|c: UsbBaseClass| c.wire() == code
    }

    /// The class code.
    pub fn into(self) -> (code: u8)
        ensures
            code == self.wire(),
    {
        match self {
            UsbBaseClass::Unspecified => 0x00,
            UsbBaseClass::Audio => 0x01,
            UsbBaseClass::CDCControl => 0x02,
            UsbBaseClass::HID => 0x03,
            UsbBaseClass::Physical => 0x05,
            UsbBaseClass::StillImaging => 0x06,
            UsbBaseClass::Printer => 0x07,
            UsbBaseClass::MassStorage => 0x08,
            UsbBaseClass::Hub => 0x09,
            UsbBaseClass::CDCData => 0x0A,
            UsbBaseClass::SmartCard => 0x0B,
            UsbBaseClass::ContentSecurity => 0x0D,
            UsbBaseClass::Video => 0x0E,
            UsbBaseClass::PersonalHealthcare => 0x0F,
            UsbBaseClass::AudioVideo => 0x10,
            UsbBaseClass::Billboard => 0x11,
            UsbBaseClass::TypeCBridge => 0x12,
            UsbBaseClass::BulkDisplay => 0x13,
            UsbBaseClass::MCTP => 0x14,
            UsbBaseClass::I3C => 0x3C,
            UsbBaseClass::Diagnostic => 0xDC,
            UsbBaseClass::WirelessController => 0xE0,
            UsbBaseClass::Miscellaneous => 0xEF,
            UsbBaseClass::ApplicationSpecific => 0xFE,
            UsbBaseClass::VendorSpecific => 0xFF,
        }
    }

    /// The class with the given code, if there is one.
    pub fn try_from(code: u8) -> (r: Result<UsbBaseClass, ()>)
        ensures
            r matches Ok(c) ==> c.wire() == code,
            r is Err <==> !UsbBaseClass::known(code),
    {
        let r = match code {
            0x00 => Ok(UsbBaseClass::Unspecified),
            0x01 => Ok(UsbBaseClass::Audio),
            0x02 => Ok(UsbBaseClass::CDCControl),
            0x03 => Ok(UsbBaseClass::HID),
            0x05 => Ok(UsbBaseClass::Physical),
            0x06 => Ok(UsbBaseClass::StillImaging),
            0x07 => Ok(UsbBaseClass::Printer),
            0x08 => Ok(UsbBaseClass::MassStorage),
            0x09 => Ok(UsbBaseClass::Hub),
            0x0A => Ok(UsbBaseClass::CDCData),
            0x0B => Ok(UsbBaseClass::SmartCard),
            0x0D => Ok(UsbBaseClass::ContentSecurity),
            0x0E => Ok(UsbBaseClass::Video),
            0x0F => Ok(UsbBaseClass::PersonalHealthcare),
            0x10 => Ok(UsbBaseClass::AudioVideo),
            0x11 => Ok(UsbBaseClass::Billboard),
            0x12 => Ok(UsbBaseClass::TypeCBridge),
            0x13 => Ok(UsbBaseClass::BulkDisplay),
            0x14 => Ok(UsbBaseClass::MCTP),
            0x3C => Ok(UsbBaseClass::I3C),
            0xDC => Ok(UsbBaseClass::Diagnostic),
            0xE0 => Ok(UsbBaseClass::WirelessController),
            0xEF => Ok(UsbBaseClass::Miscellaneous),
            0xFE => Ok(UsbBaseClass::ApplicationSpecific),
            0xFF => Ok(UsbBaseClass::VendorSpecific),
            _ => Err(()),
        };
        proof {
            match r {
                Ok(c) => {
                    assert(c.wire() == code);
                },
                Err(_) => {
                    assert forall|c: UsbBaseClass| c.wire() != code by {}
                },
            }
        }
        r
    }
}

} // verus!
