//! The hub class descriptor and the port status words of a hub.

use crate::descriptor::le16;
use crate::descriptor::read_le16;
use crate::types::UsbSpeed;
use vstd::prelude::*;

verus! {

/// The descriptor type of the hub class descriptor.
pub const HUB_DESCRIPTOR_TYPE: u8 = 0x29;

/// The number of bytes of the hub descriptor that the driver reads.
pub const HUB_DESCRIPTOR_LEN: usize = 7;

/// The fixed part of a hub class descriptor: 7 bytes on the wire.
#[derive(Clone, Copy, Debug, PartialEq, Eq, Structural)]
pub struct HubDescriptor {
    pub length: u8,
    pub descriptor_type: u8,
    pub number_of_ports: u8,
    pub hub_characteristics: u16,
    /// In units of 2 ms.
    pub power_on_to_power_good_time: u8,
    pub hub_controller_current: u8,
}

impl HubDescriptor {
    /// The descriptor that the first 7 bytes of `s` hold.
    pub open spec fn of_bytes(s: Seq<u8>) -> HubDescriptor {
        HubDescriptor {
            length: s[0],
            descriptor_type: s[1],
            number_of_ports: s[2],
            hub_characteristics: le16(s, 3),
            power_on_to_power_good_time: s[5],
            hub_controller_current: s[6],
        }
    }

    /// The all-zero descriptor.
    pub fn default() -> (d: HubDescriptor)
        ensures
            d == HubDescriptor::of_bytes(Seq::new(7, |i: int| 0u8)),
    {
        HubDescriptor {
            length: 0,
            descriptor_type: 0,
            number_of_ports: 0,
            hub_characteristics: 0,
            power_on_to_power_good_time: 0,
            hub_controller_current: 0,
        }
    }

    /// Reads the descriptor from the start of `data`.
    pub fn from_bytes(data: &[u8]) -> (d: HubDescriptor)
        requires
            data@.len() >= 7,
        ensures
            d == HubDescriptor::of_bytes(data@),
    {
        HubDescriptor {
            length: data[0],
            descriptor_type: data[1],
            number_of_ports: data[2],
            hub_characteristics: read_le16(data, 3),
            power_on_to_power_good_time: data[5],
            hub_controller_current: data[6],
        }
    }
}

/// The status word of a hub port.
#[derive(Clone, Copy, Debug, PartialEq, Eq, Structural)]
pub struct HubPortStatus(pub u16);

impl HubPortStatus {
    /// The speed that the status word reports: the high-speed bit wins over
    /// the low-speed bit, and full speed is what neither bit says.
    pub open spec fn spec_speed(&self) -> UsbSpeed {
        if self.0 & 0x400 != 0 {
            UsbSpeed::HighSpeed
        } else if self.0 & 0x200 != 0 {
            UsbSpeed::LowSpeed
        } else {
            UsbSpeed::FullSpeed
        }
    }

    pub fn default() -> (s: HubPortStatus)
        ensures
            s.0 == 0,
    {
        HubPortStatus(0)
    }

    pub fn from(val: u16) -> (s: HubPortStatus)
        ensures
            s.0 == val,
    {
        HubPortStatus(val)
    }

    /// Bit 0: a device is present on the port.
    pub fn connected(&self) -> (r: bool)
        ensures
            r == (self.0 & 0x1 != 0),
    {
        self.0 & 0x1 != 0
    }

    /// Bit 1.
    pub fn enabled(&self) -> (r: bool)
        ensures
            r == (self.0 & 0x2 != 0),
    {
        self.0 & 0x2 != 0
    }

    /// Bit 2.
    pub fn suspended(&self) -> (r: bool)
        ensures
            r == (self.0 & 0x4 != 0),
    {
        self.0 & 0x4 != 0
    }

    /// Bit 3.
    pub fn over_current(&self) -> (r: bool)
        ensures
            r == (self.0 & 0x8 != 0),
    {
        self.0 & 0x8 != 0
    }

    /// Bit 4: the port is being reset.
    pub fn reset(&self) -> (r: bool)
        ensures
            r == (self.0 & 0x10 != 0),
    {
        self.0 & 0x10 != 0
    }

    /// Bit 8: the port is powered.
    pub fn power(&self) -> (r: bool)
        ensures
            r == (self.0 & 0x100 != 0),
    {
        self.0 & 0x100 != 0
    }

    /// Bit 9.
    pub fn low_speed(&self) -> (r: bool)
        ensures
            r == (self.0 & 0x200 != 0),
    {
        self.0 & 0x200 != 0
    }

    /// Bit 10.
    pub fn high_speed(&self) -> (r: bool)
        ensures
            r == (self.0 & 0x400 != 0),
    {
        self.0 & 0x400 != 0
    }

    /// The speed of the device on the port.
    #[verifier::when_used_as_spec(spec_speed)]
    pub fn speed(&self) -> (r: UsbSpeed)
        ensures
            r == self.speed(),
    {
        if self.high_speed() {
            UsbSpeed::HighSpeed
        } else if self.low_speed() {
            UsbSpeed::LowSpeed
        } else {
            UsbSpeed::FullSpeed
        }
    }

    /// Bit 11.
    pub fn test_mode(&self) -> (r: bool)
        ensures
            r == (self.0 & 0x800 != 0),
    {
        self.0 & 0x800 != 0
    }

    /// Bit 12.
    pub fn indicator(&self) -> (r: bool)
        ensures
            r == (self.0 & 0x1000 != 0),
    {
        self.0 & 0x1000 != 0
    }
}

/// The change word of a hub port.
#[derive(Clone, Copy, Debug, PartialEq, Eq, Structural)]
pub struct HubPortStatusChange(pub u16);

impl HubPortStatusChange {
    pub fn from(val: u16) -> (s: HubPortStatusChange)
        ensures
            s.0 == val,
    {
        HubPortStatusChange(val)
    }

    /// Bit 0: the connection state of the port has changed.
    pub fn connection(&self) -> (r: bool)
        ensures
            r == (self.0 & 0x1 != 0),
    {
        self.0 & 0x1 != 0
    }

    /// Bit 1.
    pub fn enable(&self) -> (r: bool)
        ensures
            r == (self.0 & 0x2 != 0),
    {
        self.0 & 0x2 != 0
    }

    /// Bit 2.
    pub fn suspend(&self) -> (r: bool)
        ensures
            r == (self.0 & 0x4 != 0),
    {
        self.0 & 0x4 != 0
    }

    /// Bit 3.
    pub fn over_current(&self) -> (r: bool)
        ensures
            r == (self.0 & 0x8 != 0),
    {
        self.0 & 0x8 != 0
    }

    /// Bit 4: a reset of the port has ended.
    pub fn reset(&self) -> (r: bool)
        ensures
            r == (self.0 & 0x10 != 0),
    {
        self.0 & 0x10 != 0
    }
}

/// The features of a hub port that Set_Feature and Clear_Feature name.
#[derive(Clone, Copy, Debug, PartialEq, Eq, Structural)]
pub enum HubPortFeature {
    Connect,
    Enable,
    Suspend,
    OverCurrent,
    Reset,
    Power,
    LowSpeed,
    ChangeConnection,
    ChangeEnable,
    ChangeSuspend,
    ChangeOverCurrent,
    ChangeReset,
    Test,
    Indicator,
}

impl HubPortFeature {
    /// The feature selector.
    pub open spec fn wire(self) -> u8 {
        match self {
            HubPortFeature::Connect => 0,
            HubPortFeature::Enable => 1,
            HubPortFeature::Suspend => 2,
            HubPortFeature::OverCurrent => 3,
            HubPortFeature::Reset => 4,
            HubPortFeature::Power => 8,
            HubPortFeature::LowSpeed => 9,
            HubPortFeature::ChangeConnection => 16,
            HubPortFeature::ChangeEnable => 17,
            HubPortFeature::ChangeSuspend => 18,
            HubPortFeature::ChangeOverCurrent => 19,
            HubPortFeature::ChangeReset => 20,
            HubPortFeature::Test => 21,
            HubPortFeature::Indicator => 22,
        }
    }

    /// The feature selector.
    pub fn into(self) -> (c: u8)
        ensures
            c == self.wire(),
    {
        match self {
            HubPortFeature::Connect => 0,
            HubPortFeature::Enable => 1,
            HubPortFeature::Suspend => 2,
            HubPortFeature::OverCurrent => 3,
            HubPortFeature::Reset => 4,
            HubPortFeature::Power => 8,
            HubPortFeature::LowSpeed => 9,
            HubPortFeature::ChangeConnection => 16,
            HubPortFeature::ChangeEnable => 17,
            HubPortFeature::ChangeSuspend => 18,
            HubPortFeature::ChangeOverCurrent => 19,
            HubPortFeature::ChangeReset => 20,
            HubPortFeature::Test => 21,
            HubPortFeature::Indicator => 22,
        }
    }
}

} // verus!
