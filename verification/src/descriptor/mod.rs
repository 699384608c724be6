//! Descriptor records and the parser that reads them out of a byte buffer.

use crate::errors::{ParsingError, UsbHostError};
use crate::types::Bcd16;
use vstd::prelude::*;
use vstd::slice::slice_subrange;

pub mod hid;
pub mod hub;

verus! {

/// The types of the standard descriptors.
#[derive(Clone, Copy, Debug, PartialEq, Eq, Structural)]
pub enum DescriptorType {
    Device,
    Configuration,
    String,
    Interface,
    Endpoint,
}

impl DescriptorType {
    /// The type code on the wire.
    pub open spec fn wire(self) -> u8 {
        match self {
            DescriptorType::Device => 1,
            DescriptorType::Configuration => 2,
            DescriptorType::String => 3,
            DescriptorType::Interface => 4,
            DescriptorType::Endpoint => 5,
        }
    }

    /// The type code on the wire.
    pub fn code(self) -> (c: u8)
        ensures
            c == self.wire(),
    {
        match self {
            DescriptorType::Device => 1,
            DescriptorType::Configuration => 2,
            DescriptorType::String => 3,
            DescriptorType::Interface => 4,
            DescriptorType::Endpoint => 5,
        }
    }

    /// The standard type with the given code, if there is one.
    pub fn try_from(value: u8) -> (r: Result<DescriptorType, ()>)
        ensures
            r matches Ok(t) ==> t.wire() == value,
            r is Err <==> !(1 <= value <= 5),
    {
        match value {
            1 => Ok(DescriptorType::Device),
            2 => Ok(DescriptorType::Configuration),
            3 => Ok(DescriptorType::String),
            4 => Ok(DescriptorType::Interface),
            5 => Ok(DescriptorType::Endpoint),
            _ => Err(()),
        }
    }
}

/// The 16-bit word stored low byte first at `at`.
pub open spec fn le16(s: Seq<u8>, at: int) -> u16 {
    (s[at] + 256 * s[at + 1]) as u16
}

/// Reads the 16-bit word stored low byte first at `at`.
pub fn read_le16(buf: &[u8], at: usize) -> (v: u16)
    requires
        at + 1 < buf@.len(),
    ensures
        v == le16(buf@, at as int),
{
    buf[at] as u16 + (buf[at + 1] as u16) * 256
}

/// Device-wide information: one per device, 18 bytes on the wire.
#[derive(Clone, Copy, Debug, PartialEq, Eq, Structural)]
pub struct DeviceDescriptor {
    pub length: u8,
    pub descriptor_type: DescriptorType,
    /// Release of the USB specification the device complies with.
    pub usb_release: Bcd16,
    pub device_class: u8,
    pub device_sub_class: u8,
    pub device_protocol: u8,
    /// Maximum packet size of endpoint zero.
    pub max_packet_size: u8,
    pub id_vendor: u16,
    pub id_product: u16,
    pub device_release: Bcd16,
    pub manufacturer_index: u8,
    pub product_index: u8,
    pub serial_number_index: u8,
    pub num_configurations: u8,
}

/// Bit 6 of the attributes says self-powered, bit 5 remote wakeup.
#[derive(Clone, Copy, Debug, PartialEq, Eq, Structural)]
pub struct ConfigurationAttributes(pub u8);

impl ConfigurationAttributes {
    /// Whether the configuration is self-powered.
    pub fn self_powered(&self) -> (r: bool)
        ensures
            r == ((self.0 >> 6) & 1 == 1),
    {
        (self.0 >> 6) & 1 == 1
    }

    /// Whether the device supports remote wakeup.
    pub fn remote_wakeup(&self) -> (r: bool)
        ensures
            r == ((self.0 >> 5) & 1 == 1),
    {
        (self.0 >> 5) & 1 == 1
    }
}

/// One configuration of a device: 9 bytes on the wire, followed by its
/// interface, endpoint and class-specific descriptors.
#[derive(Clone, Copy, Debug, PartialEq, Eq, Structural)]
pub struct ConfigurationDescriptor {
    pub length: u8,
    pub descriptor_type: DescriptorType,
    /// Length of everything returned for this configuration.
    pub total_length: u16,
    pub num_interfaces: u8,
    /// The value that selects this configuration in Set_Configuration.
    pub value: u8,
    pub index: u8,
    pub attributes: ConfigurationAttributes,
    /// In units of 2 mA.
    pub max_power: u8,
}

/// One endpoint: 7 bytes on the wire.
#[derive(Clone, Copy, Debug, PartialEq, Eq, Structural)]
pub struct EndpointDescriptor {
    pub b_length: u8,
    pub b_descriptor_type: u8,
    /// Bits 3..0: endpoint number. Bit 7: set for an IN endpoint.
    pub b_endpoint_address: u8,
    /// Bits 1..0: transfer type.
    pub bm_attributes: u8,
    pub w_max_packet_size: u16,
    pub b_interval: u8,
}

/// One interface: 9 bytes on the wire.
#[derive(Clone, Copy, Debug, PartialEq, Eq, Structural)]
pub struct InterfaceDescriptor {
    pub b_length: u8,
    pub b_descriptor_type: u8,
    pub b_interface_number: u8,
    pub b_alternate_setting: u8,
    pub b_num_endpoints: u8,
    pub b_interface_class: u8,
    pub b_interface_sub_class: u8,
    pub b_interface_protocol: u8,
    pub i_interface: u8,
}

/// One record of a descriptor buffer.
#[derive(Clone, Copy, Debug)]
pub enum Descriptor<'d> {
    Device(DeviceDescriptor),
    Configuration(ConfigurationDescriptor),
    Endpoint(EndpointDescriptor),
    Interface(InterfaceDescriptor),
    /// A record of any other type, handed on as it stands: `data` holds the
    /// whole record, header included.
    UnknownDescriptor { descriptor_type: u8, length: u8, data: &'d [u8] },
}

impl<'a> Descriptor<'a> {
    pub fn device(self) -> (r: Option<DeviceDescriptor>)
        ensures
            r == (match self {
                Descriptor::Device(d) => Some(d),
                _ => None,
            }),
    {
        match self {
            Descriptor::Device(dev) => Some(dev),
            _ => None,
        }
    }

    pub fn configuration(self) -> (r: Option<ConfigurationDescriptor>)
        ensures
            r == (match self {
                Descriptor::Configuration(d) => Some(d),
                _ => None,
            }),
    {
        match self {
            Descriptor::Configuration(conf) => Some(conf),
            _ => None,
        }
    }

    pub fn endpoint(self) -> (r: Option<EndpointDescriptor>)
        ensures
            r == (match self {
                Descriptor::Endpoint(d) => Some(d),
                _ => None,
            }),
    {
        match self {
            Descriptor::Endpoint(ep) => Some(ep),
            _ => None,
        }
    }

    pub fn interface(self) -> (r: Option<InterfaceDescriptor>)
        ensures
            r == (match self {
                Descriptor::Interface(d) => Some(d),
                _ => None,
            }),
    {
        match self {
            Descriptor::Interface(intf) => Some(intf),
            _ => None,
        }
    }
}

/// The device descriptor that the first 18 bytes of `s` hold.
pub open spec fn device_of(s: Seq<u8>) -> DeviceDescriptor {
    DeviceDescriptor {
        length: s[0],
        descriptor_type: DescriptorType::Device,
        usb_release: Bcd16(le16(s, 2)),
        device_class: s[4],
        device_sub_class: s[5],
        device_protocol: s[6],
        max_packet_size: s[7],
        id_vendor: le16(s, 8),
        id_product: le16(s, 10),
        device_release: Bcd16(le16(s, 12)),
        manufacturer_index: s[14],
        product_index: s[15],
        serial_number_index: s[16],
        num_configurations: s[17],
    }
}

/// The configuration descriptor that the first 9 bytes of `s` hold.
pub open spec fn configuration_of(s: Seq<u8>) -> ConfigurationDescriptor {
    ConfigurationDescriptor {
        length: s[0],
        descriptor_type: DescriptorType::Configuration,
        total_length: le16(s, 2),
        num_interfaces: s[4],
        value: s[5],
        index: s[6],
        attributes: ConfigurationAttributes(s[7]),
        max_power: s[8],
    }
}

/// The endpoint descriptor that the first 7 bytes of `s` hold.
pub open spec fn endpoint_of(s: Seq<u8>) -> EndpointDescriptor {
    EndpointDescriptor {
        b_length: s[0],
        b_descriptor_type: s[1],
        b_endpoint_address: s[2],
        bm_attributes: s[3],
        w_max_packet_size: le16(s, 4),
        b_interval: s[6],
    }
}

/// The interface descriptor that the first 9 bytes of `s` hold.
pub open spec fn interface_of(s: Seq<u8>) -> InterfaceDescriptor {
    InterfaceDescriptor {
        b_length: s[0],
        b_descriptor_type: s[1],
        b_interface_number: s[2],
        b_alternate_setting: s[3],
        b_num_endpoints: s[4],
        b_interface_class: s[5],
        b_interface_sub_class: s[6],
        b_interface_protocol: s[7],
        i_interface: s[8],
    }
}

/// Why the record at the start of `s` cannot be read, if it cannot.
///
/// A record starts with its length and its type. A length below two is
/// never right. A device descriptor has to say 18 and is incomplete below
/// that; once its first eight bytes are there the error carries the maximum
/// packet size. Configuration, interface and endpoint descriptors need their
/// 9, 9 and 7 bytes. A record of any other type needs as many bytes as its
/// length says.
pub open spec fn parse_failure(s: Seq<u8>) -> Option<ParsingError> {
    if s.len() < 2 {
        Some(ParsingError::Incomplete)
    } else if s[0] < 2 {
        Some(ParsingError::InvalidLength)
    } else if s[1] == 1 {
        if s[0] != 18 {
            Some(ParsingError::InvalidLength)
        } else if s.len() < 8 {
            Some(ParsingError::Incomplete)
        } else if s.len() < 18 {
            Some(ParsingError::IncompleteDeviceDescriptor { max_packet_size: s[7] })
        } else {
            None
        }
    } else if s[1] == 2 || s[1] == 4 {
        if s.len() < 9 {
            Some(ParsingError::Incomplete)
        } else {
            None
        }
    } else if s[1] == 5 {
        if s.len() < 7 {
            Some(ParsingError::Incomplete)
        } else {
            None
        }
    } else if s.len() < s[0] {
        Some(ParsingError::Incomplete)
    } else {
        None
    }
}

/// A record as a value of its own, with the bytes of an unknown record
/// copied out of the buffer.
pub enum Record {
    Device(DeviceDescriptor),
    Configuration(ConfigurationDescriptor),
    Endpoint(EndpointDescriptor),
    Interface(InterfaceDescriptor),
    Unknown { descriptor_type: u8, length: u8, data: Seq<u8> },
}

impl<'d> View for Descriptor<'d> {
    type V = Record;

    open spec fn view(&self) -> Record {
        match *self {
            Descriptor::Device(d) => Record::Device(d),
            Descriptor::Configuration(d) => Record::Configuration(d),
            Descriptor::Endpoint(d) => Record::Endpoint(d),
            Descriptor::Interface(d) => Record::Interface(d),
            Descriptor::UnknownDescriptor { descriptor_type, length, data } => Record::Unknown {
                descriptor_type,
                length,
                data: data@,
            },
        }
    }
}

/// The record at the start of `s`, where it can be read: the four kinds that
/// the parser has a structure for, and any other type as it stands, header
/// included.
pub open spec fn record_of(s: Seq<u8>) -> Record {
    if s[1] == 1 {
        Record::Device(device_of(s))
    } else if s[1] == 2 {
        Record::Configuration(configuration_of(s))
    } else if s[1] == 4 {
        Record::Interface(interface_of(s))
    } else if s[1] == 5 {
        Record::Endpoint(endpoint_of(s))
    } else {
        Record::Unknown { descriptor_type: s[1], length: s[0], data: s.subrange(0, s[0] as int) }
    }
}

/// What follows the record at the start of `s`: nothing, if the record
/// claims to reach the end of `s` or beyond.
pub open spec fn after_record(s: Seq<u8>) -> Seq<u8> {
    if s[0] >= s.len() {
        Seq::<u8>::empty()
    } else {
        s.subrange(s[0] as int, s.len() as int)
    }
}

/// The records of `s` in order. A record that cannot be read is reported
/// with its error and ends the list.
pub open spec fn records(s: Seq<u8>) -> Seq<Result<Record, UsbHostError>>
    decreases s.len(),
{
    if s.len() == 0 {
        Seq::empty()
    } else {
        match parse_failure(s) {
            Some(e) => seq![Err(UsbHostError::ParsingError(e))],
            None => seq![Ok(record_of(s))] + records(after_record(s)),
        }
    }
}

/// What the reader hands out, with unknown records copied out of the buffer.
pub open spec fn item_view(r: Result<Descriptor, UsbHostError>) -> Result<Record, UsbHostError> {
    match r {
        Ok(d) => Ok(d@),
        Err(e) => Err(e),
    }
}

/// Reads the record at the start of `buf` and says how long it claims to be.
///
/// Records of a type that the parser has no structure for, string
/// descriptors among them, come back as `UnknownDescriptor`, not as an error.
pub fn parse_descriptor<'a>(buf: &'a [u8]) -> (r: Result<(Descriptor<'a>, usize), UsbHostError>)
    ensures
        match r {
            Ok((d, n)) => parse_failure(buf@) is None && n == buf@[0] && n >= 2 && d@ == record_of(
                buf@,
            ),
            Err(e) => parse_failure(buf@) == Some(e->ParsingError_0) && e is ParsingError,
        },
{
    if buf.len() < 2 {
        return Err(ParsingError::Incomplete.into());
    }
    let length = buf[0];
    let descriptor_type = buf[1];
    if length < 2 {
        return Err(ParsingError::InvalidLength.into());
    }
    let desc_type = match DescriptorType::try_from(descriptor_type) {
        Ok(DescriptorType::String) | Err(_) => {
            if buf.len() < length as usize {
                return Err(ParsingError::Incomplete.into());
            }
            return Ok(
                (
                    Descriptor::UnknownDescriptor {
                        descriptor_type,
                        length,
                        data: slice_subrange(buf, 0, length as usize),
                    },
                    length as usize,
                ),
            );
        },
        Ok(desc_type) => desc_type,
    };
    match desc_type {
        DescriptorType::Device => {
            if length != 18 {
                Err(ParsingError::InvalidLength.into())
            } else if buf.len() < 8 {
                Err(ParsingError::Incomplete.into())
            } else if buf.len() < 18 {
                Err(ParsingError::IncompleteDeviceDescriptor { max_packet_size: buf[7] }.into())
            } else {
                let d = DeviceDescriptor {
                    length,
                    descriptor_type: DescriptorType::Device,
                    usb_release: Bcd16(read_le16(buf, 2)),
                    device_class: buf[4],
                    device_sub_class: buf[5],
                    device_protocol: buf[6],
                    max_packet_size: buf[7],
                    id_vendor: read_le16(buf, 8),
                    id_product: read_le16(buf, 10),
                    device_release: Bcd16(read_le16(buf, 12)),
                    manufacturer_index: buf[14],
                    product_index: buf[15],
                    serial_number_index: buf[16],
                    num_configurations: buf[17],
                };
                Ok((Descriptor::Device(d), length as usize))
            }
        },
        DescriptorType::Configuration => {
            if buf.len() < 9 {
                Err(ParsingError::Incomplete.into())
            } else {
                let d = ConfigurationDescriptor {
                    length,
                    descriptor_type: DescriptorType::Configuration,
                    total_length: read_le16(buf, 2),
                    num_interfaces: buf[4],
                    value: buf[5],
                    index: buf[6],
                    attributes: ConfigurationAttributes(buf[7]),
                    max_power: buf[8],
                };
                Ok((Descriptor::Configuration(d), length as usize))
            }
        },
        DescriptorType::Interface => {
            if buf.len() < 9 {
                Err(ParsingError::Incomplete.into())
            } else {
                let d = InterfaceDescriptor {
                    b_length: length,
                    b_descriptor_type: descriptor_type,
                    b_interface_number: buf[2],
                    b_alternate_setting: buf[3],
                    b_num_endpoints: buf[4],
                    b_interface_class: buf[5],
                    b_interface_sub_class: buf[6],
                    b_interface_protocol: buf[7],
                    i_interface: buf[8],
                };
                Ok((Descriptor::Interface(d), length as usize))
            }
        },
        DescriptorType::Endpoint => {
            if buf.len() < 7 {
                Err(ParsingError::Incomplete.into())
            } else {
                let d = EndpointDescriptor {
                    b_length: length,
                    b_descriptor_type: descriptor_type,
                    b_endpoint_address: buf[2],
                    bm_attributes: buf[3],
                    w_max_packet_size: read_le16(buf, 4),
                    b_interval: buf[6],
                };
                Ok((Descriptor::Endpoint(d), length as usize))
            }
        },
        DescriptorType::String => {
            proof {
                assert(false);
            }
            vstd::pervasive::unreached()
        },
    }
}

/// A forward-only reader of the records of a buffer.
pub struct DescriptorIterator<'a> {
    buf: &'a [u8],
    offset: usize,
}

impl<'a> DescriptorIterator<'a> {
    /// The bytes being read.
    pub closed spec fn bytes(&self) -> Seq<u8> {
        self.buf@
    }

    /// Where the next record starts; at the end of the buffer when the
    /// reader is exhausted.
    pub closed spec fn position(&self) -> int {
        self.offset as int
    }

    /// What is left to read.
    pub open spec fn rest(&self) -> Seq<u8> {
        self.bytes().subrange(self.position(), self.bytes().len() as int)
    }

    /// A reader at the start of `buf`.
    pub fn new(buf: &'a [u8]) -> (it: Self)
        ensures
            it.bytes() == buf@,
            it.position() == 0,
    {
        Self { buf, offset: 0 }
    }

    /// Reads the next record and steps over it.
    ///
    /// At the end of the buffer there is nothing more. A record that cannot
    /// be read is reported once, and ends the reading. A record that claims
    /// to be longer than what is left is handed out where its type allows,
    /// and ends the reading too.
    pub fn next(&mut self) -> (r: Option<Result<Descriptor<'a>, UsbHostError>>)
        requires
            old(self).position() <= old(self).bytes().len(),
        ensures
            final(self).bytes() == old(self).bytes(),
            final(self).position() <= final(self).bytes().len(),
            old(self).position() == old(self).bytes().len() ==> r is None && final(self).position()
                == old(self).position(),
            old(self).position() < old(self).bytes().len() ==> (match r {
                Some(Ok(d)) => {
                    &&& parse_failure(old(self).rest()) is None
                    &&& d@ == record_of(old(self).rest())
                    &&& final(self).rest() == after_record(old(self).rest())
                    &&& final(self).position() == (if old(self).rest()[0] >= old(self).rest().len() {
                        old(self).bytes().len() as int
                    } else {
                        old(self).position() + old(self).rest()[0]
                    })
                    &&& final(self).position() > old(self).position()
                },
                Some(Err(e)) => {
                    &&& e is ParsingError
                    &&& parse_failure(old(self).rest()) == Some(e->ParsingError_0)
                    &&& final(self).position() == old(self).bytes().len()
                    &&& final(self).rest() == Seq::<u8>::empty()
                },
                None => false,
            }),
    {
        if self.offset >= self.buf.len() {
            return None;
        }
        let rest = slice_subrange(self.buf, self.offset, self.buf.len());
        let ghost before = self.rest();
        match parse_descriptor(rest) {
            Ok((descriptor, length)) => {
                if length >= self.buf.len() - self.offset {
                    self.offset = self.buf.len();
                } else {
                    self.offset += length;
                }
                assert(self.rest() =~= after_record(before));
                Some(Ok(descriptor))
            },
            Err(e) => {
                self.offset = self.buf.len();
                assert(self.rest() =~= Seq::<u8>::empty());
                Some(Err(e))
            },
        }
    }

    /// Reads all that is left, in order.
    pub fn collect(self) -> (v: Vec<Result<Descriptor<'a>, UsbHostError>>)
        requires
            self.position() <= self.bytes().len(),
        ensures
            v@.len() == records(self.rest()).len(),
            forall|k: int| 0 <= k < v@.len() ==> item_view(#[trigger] v@[k]) == records(self.rest())[k],
    {
        let mut it = self;
        let mut v: Vec<Result<Descriptor<'a>, UsbHostError>> = Vec::new();
        loop
            invariant
                it.position() <= it.bytes().len(),
                records(self.rest()).len() == v@.len() + records(it.rest()).len(),
                forall|k: int| 0 <= k < v@.len() ==> item_view(#[trigger] v@[k]) == records(self.rest())[k],
                forall|k: int|
                    0 <= k < records(it.rest()).len() ==> #[trigger] records(it.rest())[k] == records(
                        self.rest(),
                    )[v@.len() + k],
            decreases it.bytes().len() - it.position(),
        {
            let ghost before = it.rest();
            let ghost done = v@.len();
            match it.next() {
                None => {
                    assert(before.len() == 0);
                    return v;
                },
                Some(item) => {
                    assert(before.len() > 0);
                    proof {
                        let all = records(before);
                        assert(all[0] == item_view(item));
                        match item {
                            Ok(d) => {
                                assert(all == seq![Ok::<Record, UsbHostError>(record_of(before))] + records(
                                    it.rest(),
                                ));
                                assert forall|k: int| 0 <= k < records(it.rest()).len() implies #[trigger] records(
                                    it.rest(),
                                )[k] == records(self.rest())[done + 1 + k] by {
                                    assert(all[k + 1] == records(it.rest())[k]);
                                    assert(all[k + 1] == records(self.rest())[done + (k + 1)]);
                                }
                            },
                            Err(e) => {
                                assert(records(it.rest()).len() == 0);
                            },
                        }
                        assert(records(self.rest())[done as int] == all[0]);
                    }
                    v.push(item);
                },
            }
        }
    }
}

} // verus!
