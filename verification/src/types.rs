//! Plain value types shared by the whole stack.

use crate::device_addr::DeviceHandle;
use vstd::prelude::*;

verus! {

/// A 16-bit binary-coded decimal: four digits of four bits each.
#[derive(Clone, Copy, Debug, PartialEq, Eq, Structural)]
pub struct Bcd16(pub u16);

impl Bcd16 {
    /// The four digits, most significant first.
    pub open spec fn digits(self) -> Seq<u8> {
        seq![
            ((self.0 >> 12) & 0xF) as u8,
            ((self.0 >> 8) & 0xF) as u8,
            ((self.0 >> 4) & 0xF) as u8,
            (self.0 & 0xF) as u8,
        ]
    }

    /// Whether each of the four digits of `value` is at most 9.
    pub open spec fn valid(value: u16) -> bool {
        &&& (value >> 12) & 0xF < 10
        &&& (value >> 8) & 0xF < 10
        &&& (value >> 4) & 0xF < 10
        &&& value & 0xF < 10
    }

    /// The zero value.
    pub fn default() -> (b: Bcd16)
        ensures
            b.0 == 0,
    {
        Bcd16(0)
    }

    /// The four digits, most significant first. Each is below 16, and below
    /// 10 when the value is valid.
    pub fn to_digits(self) -> (d: [u8; 4])
        ensures
            d@ == self.digits(),
            forall|k: int| 0 <= k < 4 ==> d@[k] < 16,
            Bcd16::valid(self.0) ==> forall|k: int| 0 <= k < 4 ==> d@[k] < 10,
    {
        let v = self.0;
        assert((v >> 12) & 0xF < 16 && (v >> 8) & 0xF < 16 && (v >> 4) & 0xF < 16 && v & 0xF < 16)
            by (bit_vector);
        let d = [
            ((v >> 12) & 0xF) as u8,
            ((v >> 8) & 0xF) as u8,
            ((v >> 4) & 0xF) as u8,
            (v & 0xF) as u8,
        ];
        assert(d@ =~= self.digits());
        d
    }

    /// Whether each of the four digits of `value` is at most 9.
    pub fn is_valid(value: u16) -> (r: bool)
        ensures
            r == Bcd16::valid(value),
    {
        (value >> 12 & 0xF) < 10 && (value >> 8 & 0xF) < 10 && (value >> 4 & 0xF) < 10 && (value
            & 0xF) < 10
    }

    /// Reads the value from two bytes, low byte first.
    pub fn from_le_bytes(data: [u8; 2]) -> (b: Bcd16)
        ensures
            b.0 == data@[0] + 256 * data@[1],
    {
        Bcd16(data[0] as u16 + (data[1] as u16) * 256)
    }
}

/// Packet identifiers.
#[derive(Clone, Copy, Debug, PartialEq, Eq, Structural)]
pub enum Pid {
    OUT,
    IN,
    SOF,
    SETUP,
    DATA0,
    DATA1,
    DATA2,
    MDATA,
    ACK,
    NAK,
    STALL,
    NYET,
    SPLIT,
    PING,
    Rsvd,
}

impl Pid {
    /// The four-bit code of the identifier.
    pub open spec fn wire(self) -> u8 {
        match self {
            Pid::OUT => 0b0001,
            Pid::IN => 0b1001,
            Pid::SOF => 0b0101,
            Pid::SETUP => 0b1101,
            Pid::DATA0 => 0b0011,
            Pid::DATA1 => 0b1011,
            Pid::DATA2 => 0b0111,
            Pid::MDATA => 0b1111,
            Pid::ACK => 0b0010,
            Pid::NAK => 0b1010,
            Pid::STALL => 0b1110,
            Pid::NYET => 0b0110,
            Pid::SPLIT => 0b1000,
            Pid::PING => 0b0100,
            Pid::Rsvd => 0b0000,
        }
    }

    /// The four-bit code of the identifier.
    pub fn code(self) -> (c: u8)
        ensures
            c == self.wire(),
    {
        match self {
            Pid::OUT => 0b0001,
            Pid::IN => 0b1001,
            Pid::SOF => 0b0101,
            Pid::SETUP => 0b1101,
            Pid::DATA0 => 0b0011,
            Pid::DATA1 => 0b1011,
            Pid::DATA2 => 0b0111,
            Pid::MDATA => 0b1111,
            Pid::ACK => 0b0010,
            Pid::NAK => 0b1010,
            Pid::STALL => 0b1110,
            Pid::NYET => 0b0110,
            Pid::SPLIT => 0b1000,
            Pid::PING => 0b0100,
            Pid::Rsvd => 0b0000,
        }
    }

    /// The identifier with the given code. Every code below 16 but `0b1100`
    /// names one.
    pub fn try_from(value: u8) -> (r: Result<Pid, ()>)
        ensures
            r matches Ok(p) ==> p.wire() == value,
            r is Err <==> (value >= 16 || value == 0b1100),
    {
        match value {
            0b0001 => Ok(Pid::OUT),
            0b1001 => Ok(Pid::IN),
            0b0101 => Ok(Pid::SOF),
            0b1101 => Ok(Pid::SETUP),
            0b0011 => Ok(Pid::DATA0),
            0b1011 => Ok(Pid::DATA1),
            0b0111 => Ok(Pid::DATA2),
            0b1111 => Ok(Pid::MDATA),
            0b0010 => Ok(Pid::ACK),
            0b1010 => Ok(Pid::NAK),
            0b1110 => Ok(Pid::STALL),
            0b0110 => Ok(Pid::NYET),
            0b1000 => Ok(Pid::SPLIT),
            0b0100 => Ok(Pid::PING),
            0b0000 => Ok(Pid::Rsvd),
            _ => Err(()),
        }
    }
}

/// Transfer type of an endpoint.
#[derive(Clone, Copy, Debug, PartialEq, Eq, Structural)]
pub enum EndpointType {
    Control,
    Isochronous,
    Bulk,
    Interrupt,
}

impl EndpointType {
    /// The two-bit code of the transfer type.
    pub open spec fn wire(self) -> u8 {
        match self {
            EndpointType::Control => 0,
            EndpointType::Isochronous => 1,
            EndpointType::Bulk => 2,
            EndpointType::Interrupt => 3,
        }
    }

    /// The two-bit code of the transfer type.
    pub fn code(self) -> (c: u8)
        ensures
            c == self.wire(),
    {
        match self {
            EndpointType::Control => 0,
            EndpointType::Isochronous => 1,
            EndpointType::Bulk => 2,
            EndpointType::Interrupt => 3,
        }
    }
}

/// Direction of an endpoint, seen from the host.
#[derive(Clone, Copy, Debug, PartialEq, Eq, Structural)]
pub enum EndpointDirection {
    In,
    Out,
}

/// An endpoint: its number and its direction.
#[derive(Clone, Copy, Debug, PartialEq, Eq, Structural)]
pub struct EndpointAddress {
    pub number: u8,
    pub direction: EndpointDirection,
}

impl EndpointAddress {
    /// The endpoint that the address byte of an endpoint descriptor names:
    /// the number in the low four bits, the direction in the top bit.
    pub open spec fn of_byte(b: u8) -> EndpointAddress {
        EndpointAddress {
            number: b & 0xF,
            direction: if b & 0x80 == 0 {
                EndpointDirection::Out
            } else {
                EndpointDirection::In
            },
        }
    }

    /// Decodes the address byte of an endpoint descriptor.
    pub fn from_byte(b: u8) -> (a: EndpointAddress)
        ensures
            a == EndpointAddress::of_byte(b),
            a.number < 16,
    {
        assert(b & 0xF < 16) by (bit_vector);
        EndpointAddress {
            number: b & 0xF,
            direction: if b & 0x80 == 0 {
                EndpointDirection::Out
            } else {
                EndpointDirection::In
            },
        }
    }
}

/// An interrupt endpoint of an addressed device together with the data
/// toggle of its next transaction.
#[derive(Clone, Copy, Debug, PartialEq, Eq)]
pub struct InterruptChannel {
    device_handle: DeviceHandle,
    endpoint_address: EndpointAddress,
    tog: DataTog,
}

impl InterruptChannel {
    pub closed spec fn spec_device_handle(&self) -> DeviceHandle {
        self.device_handle
    }

    pub closed spec fn spec_endpoint_address(&self) -> EndpointAddress {
        self.endpoint_address
    }

    pub closed spec fn spec_tog(&self) -> DataTog {
        self.tog
    }

    /// The channel with the given device, endpoint and toggle.
    pub closed spec fn made(device_handle: DeviceHandle, endpoint_address: EndpointAddress, tog: DataTog) -> InterruptChannel {
        InterruptChannel { device_handle, endpoint_address, tog }
    }

    /// A channel reads back as what it was made of.
    pub proof fn lemma_made(device_handle: DeviceHandle, endpoint_address: EndpointAddress, tog: DataTog)
        ensures
            InterruptChannel::made(device_handle, endpoint_address, tog).device_handle()
                == device_handle,
            InterruptChannel::made(device_handle, endpoint_address, tog).endpoint_address()
                == endpoint_address,
            InterruptChannel::made(device_handle, endpoint_address, tog).tog() == tog,
    {
    }

    /// A channel that starts at DATA0.
    pub fn new(device_handle: DeviceHandle, endpoint_address: EndpointAddress) -> (c: InterruptChannel)
        ensures
            c == InterruptChannel::made(device_handle, endpoint_address, DataTog::DATA0),
            c.device_handle() == device_handle,
            c.endpoint_address() == endpoint_address,
            c.tog() == DataTog::DATA0,
    {
        InterruptChannel { device_handle, endpoint_address, tog: DataTog::DATA0 }
    }

    #[verifier::when_used_as_spec(spec_device_handle)]
    pub fn device_handle(&self) -> (r: DeviceHandle)
        ensures
            r == self.device_handle(),
    {
        self.device_handle
    }

    #[verifier::when_used_as_spec(spec_endpoint_address)]
    pub fn endpoint_address(&self) -> (r: EndpointAddress)
        ensures
            r == self.endpoint_address(),
    {
        self.endpoint_address
    }

    #[verifier::when_used_as_spec(spec_tog)]
    pub fn tog(&self) -> (r: DataTog)
        ensures
            r == self.tog(),
    {
        self.tog
    }

    /// Flips the toggle after a successful transaction.
    pub(crate) fn advance(&mut self)
        ensures
            final(self).tog() == old(self).tog().flipped(),
            final(self).device_handle() == old(self).device_handle(),
            final(self).endpoint_address() == old(self).endpoint_address(),
    {
        self.tog.next();
    }
}

/// Bus speed of a device or of the link it hangs on.
#[derive(Clone, Copy, Debug, PartialEq, Eq, Structural)]
pub enum UsbSpeed {
    LowSpeed,
    FullSpeed,
    HighSpeed,
}

impl UsbSpeed {
    /// Low and full speed are the "classic" speeds that need a transaction
    /// translator behind a high-speed hub.
    pub fn is_classic(&self) -> (r: bool)
        ensures
            r == (*self != UsbSpeed::HighSpeed),
    {
        match self {
            UsbSpeed::LowSpeed => true,
            UsbSpeed::FullSpeed => true,
            UsbSpeed::HighSpeed => false,
        }
    }
}

/// The one-bit sequence number of a data packet.
#[derive(Clone, Copy, Debug, PartialEq, Eq, Structural)]
pub enum DataTog {
    DATA0,
    DATA1,
}

impl DataTog {
    /// The other toggle value.
    pub open spec fn flipped(self) -> DataTog {
        match self {
            DataTog::DATA0 => DataTog::DATA1,
            DataTog::DATA1 => DataTog::DATA0,
        }
    }

    /// Flips the toggle in place.
    pub fn next(&mut self)
        ensures
            *final(self) == old(self).flipped(),
    {
        *self = match *self {
            DataTog::DATA0 => DataTog::DATA1,
            DataTog::DATA1 => DataTog::DATA0,
        };
    }
}

/// A downstream-facing port: the address of the hub it belongs to and the
/// port's number on that hub.
///
/// The parent address is kept in the low seven bits of one byte whose top bit
/// says whether a parent is set at all. An entry without a parent is empty.
#[derive(Clone, Copy, Debug, PartialEq, Eq, Structural)]
pub struct PortInfo {
    valid_parent_addr: u8,
    port_on_parent: u8,
}

impl PortInfo {
    /// The raw byte holding the valid flag and the parent address.
    pub closed spec fn raw_parent(self) -> u8 {
        self.valid_parent_addr
    }

    /// Whether no parent is set.
    pub open spec fn empty(self) -> bool {
        self.raw_parent() & 0x80 == 0
    }

    /// The parent's address; meaningful when the entry is not empty.
    pub open spec fn parent(self) -> int {
        (self.raw_parent() & 0x7F) as int
    }

    /// The port number on the parent.
    pub closed spec fn port_number(self) -> u8 {
        self.port_on_parent
    }

    /// The empty entry, with both bytes zero.
    pub closed spec fn blank() -> PortInfo {
        PortInfo { valid_parent_addr: 0, port_on_parent: 0 }
    }

    /// The entry with the given raw parent byte and port number.
    pub closed spec fn made(valid_parent_addr: u8, port_on_parent: u8) -> PortInfo {
        PortInfo { valid_parent_addr, port_on_parent }
    }

    /// An entry made of two bytes reads back as those bytes.
    pub proof fn lemma_made(valid_parent_addr: u8, port_on_parent: u8)
        ensures
            PortInfo::made(valid_parent_addr, port_on_parent).raw_parent() == valid_parent_addr,
            PortInfo::made(valid_parent_addr, port_on_parent).port_number() == port_on_parent,
    {
    }

    /// The blank entry is empty.
    pub proof fn lemma_blank_empty()
        ensures
            PortInfo::blank().empty(),
            PortInfo::blank().raw_parent() == 0,
            PortInfo::blank().port_number() == 0,
    {
        assert(0u8 & 0x80 == 0) by (bit_vector);
    }

    /// The empty entry.
    pub fn invalid() -> (p: PortInfo)
        ensures
            p == PortInfo::blank(),
            p.empty(),
    {
        proof {
            PortInfo::lemma_blank_empty();
        }
        PortInfo { valid_parent_addr: 0, port_on_parent: 0 }
    }

    /// Builds an entry from the raw parent byte (valid flag in the top bit)
    /// and the port number.
    pub fn new(valid_parent_addr: u8, port_on_parent: u8) -> (p: PortInfo)
        ensures
            p == PortInfo::made(valid_parent_addr, port_on_parent),
            p.raw_parent() == valid_parent_addr,
            p.port_number() == port_on_parent,
    {
        PortInfo { valid_parent_addr, port_on_parent }
    }

    /// Whether no parent is set.
    pub fn is_empty(&self) -> (r: bool)
        ensures
            r == self.empty(),
    {
        self.valid_parent_addr & 0x80 == 0
    }

    /// The parent's address, if one is set.
    pub fn parent_addr(&self) -> (r: Option<u8>)
        ensures
            r == (if self.empty() {
                None
            } else {
                Some((self.raw_parent() & 0x7F) as u8)
            }),
            r matches Some(a) ==> a as int == self.parent() && a <= 127,
    {
        if self.is_empty() {
            None
        } else {
            let v = self.valid_parent_addr;
            assert(v & 0x7F <= 127) by (bit_vector);
            Some(self.valid_parent_addr & 0x7F)
        }
    }

    /// The port number on the parent.
    pub fn port(&self) -> (r: u8)
        ensures
            r == self.port_number(),
    {
        self.port_on_parent
    }
}

/// What the stack knows of a device before it has an address: the port it
/// sits on, the transaction translator that traffic to it goes through (hub
/// address and hub port), and its speed.
#[derive(Clone, Copy, Debug, PartialEq, Eq)]
pub struct DevInfo {
    port: PortInfo,
    transaction_translator: Option<(u8, u8)>,
    speed: UsbSpeed,
}

impl DevInfo {
    pub closed spec fn spec_port(&self) -> PortInfo {
        self.port
    }

    pub closed spec fn spec_transaction_translator(&self) -> Option<(u8, u8)> {
        self.transaction_translator
    }

    pub closed spec fn spec_speed(&self) -> UsbSpeed {
        self.speed
    }

    /// The record with the given port, translator and speed.
    pub closed spec fn made(port: PortInfo, transaction_translator: Option<(u8, u8)>, speed: UsbSpeed) -> DevInfo {
        DevInfo { port, transaction_translator, speed }
    }

    /// A record reads back as what it was made of.
    pub proof fn lemma_made(port: PortInfo, transaction_translator: Option<(u8, u8)>, speed: UsbSpeed)
        ensures
            DevInfo::made(port, transaction_translator, speed).port() == port,
            DevInfo::made(port, transaction_translator, speed).transaction_translator()
                == transaction_translator,
            DevInfo::made(port, transaction_translator, speed).speed() == speed,
    {
    }

    /// A high-speed device needs no transaction translator.
    pub open spec fn tt_consistent(&self) -> bool {
        self.speed() == UsbSpeed::HighSpeed ==> self.transaction_translator() is None
    }

    /// A record without a port, as a placeholder.
    pub fn empty() -> (d: DevInfo)
        ensures
            d.port() == PortInfo::blank(),
            d.transaction_translator() is None,
            d.speed() == UsbSpeed::LowSpeed,
    {
        DevInfo { port: PortInfo::invalid(), transaction_translator: None, speed: UsbSpeed::LowSpeed }
    }

    /// The device on the root port: its parent is address 0, it has no
    /// transaction translator.
    pub fn root_device(speed: UsbSpeed) -> (d: DevInfo)
        ensures
            d == DevInfo::made(PortInfo::made(0x80, 0), None, speed),
            !d.port().empty(),
            d.port().parent() == 0,
            d.port().raw_parent() == 0x80,
            d.port().port_number() == 0,
            d.transaction_translator() is None,
            d.speed() == speed,
    {
        assert(0x80u8 & 0x80 != 0 && 0x80u8 & 0x7F == 0) by (bit_vector);
        DevInfo { port: PortInfo::new(0x80, 0), transaction_translator: None, speed }
    }

    /// A device on port `port` of the hub at address `addr`.
    pub fn new(addr: u8, port: u8, transaction_translator: Option<(u8, u8)>, speed: UsbSpeed) -> (d:
        DevInfo)
        requires
            addr & 0x7F != 0,
        ensures
            d == DevInfo::made(PortInfo::made(0x80 | addr, port), transaction_translator, speed),
            !d.port().empty(),
            d.port().parent() == (addr & 0x7F) as int,
            d.port().parent() != 0,
            d.port().raw_parent() == 0x80 | addr,
            d.port().port_number() == port,
            d.transaction_translator() == transaction_translator,
            d.speed() == speed,
    {
        assert((0x80u8 | addr) & 0x80 != 0 && (0x80u8 | addr) & 0x7F == addr & 0x7F)
            by (bit_vector);
        DevInfo { port: PortInfo::new(0x80 | addr, port), transaction_translator, speed }
    }

    #[verifier::when_used_as_spec(spec_port)]
    pub fn port(&self) -> (r: PortInfo)
        ensures
            r == self.port(),
    {
        self.port
    }

    #[verifier::when_used_as_spec(spec_transaction_translator)]
    pub fn transaction_translator(&self) -> (r: Option<(u8, u8)>)
        ensures
            r == self.transaction_translator(),
    {
        self.transaction_translator
    }

    #[verifier::when_used_as_spec(spec_speed)]
    pub fn speed(&self) -> (r: UsbSpeed)
        ensures
            r == self.speed(),
    {
        self.speed
    }
}

} // verus!
