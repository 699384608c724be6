//! The class descriptor of a HID interface.

use crate::descriptor::read_le16;
use crate::descriptor::le16;
use crate::types::Bcd16;
use vstd::prelude::*;

verus! {

/// The descriptor type of the HID class descriptor.
pub const HID_DESCRIPTOR_TYPE: u8 = 0x21;

/// The fixed part of a HID class descriptor: 7 bytes on the wire.
#[derive(Clone, Copy, Debug, PartialEq, Eq, Structural)]
pub struct HIDDescriptor {
    pub total_length: u8,
    pub descriptor_type: u8,
    pub bcd_hid: Bcd16,
    pub country_code: u8,
    pub flags: u8,
    pub num_descriptors: u8,
}

impl HIDDescriptor {
    /// The descriptor that the first 7 bytes of `s` hold.
    pub open spec fn of_bytes(s: Seq<u8>) -> HIDDescriptor {
        HIDDescriptor {
            total_length: s[0],
            descriptor_type: s[1],
            bcd_hid: Bcd16(le16(s, 2)),
            country_code: s[4],
            flags: s[5],
            num_descriptors: s[6],
        }
    }

    /// Reads the descriptor from the start of `data`, if `data` is long
    /// enough.
    pub fn parse(data: &[u8]) -> (r: Option<HIDDescriptor>)
        ensures
            r == (if data@.len() < 7 {
                None
            } else {
                Some(HIDDescriptor::of_bytes(data@))
            }),
    {
        if data.len() < 7 {
            return None;
        }
        Some(
            HIDDescriptor {
                total_length: data[0],
                descriptor_type: data[1],
                bcd_hid: Bcd16(read_le16(data, 2)),
                country_code: data[4],
                flags: data[5],
                num_descriptors: data[6],
            },
        )
    }
}

} // verus!
