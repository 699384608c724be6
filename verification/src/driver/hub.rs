//! The hub driver: bringing a hub up, and making events of what its ports
//! report.
//!
//! Both are sequences of control transfers with decisions in between. The
//! driver says which request comes next; the caller runs the transfer and
//! reports its result together with the buffer that the transfer filled.

use crate::bitset::{bits_from_bytes, bits_ones, byte_bit, set_bits_of};
use crate::descriptor::hub::{HubDescriptor, HubPortStatus, HubPortStatusChange};
use crate::descriptor::{le16, read_le16, records, Descriptor, DeviceDescriptor, Record};
use crate::descriptor::item_view;
use crate::device_addr::DeviceHandle;
use crate::driver::{configuration_fault, get_configuration_descriptor, CONFIGURATION_BUFFER_LEN};
use crate::errors::UsbHostError;
use crate::request::{
    Request, RequestTypeDirection, RequestTypeRecipient, RequestTypeType, StandardDeviceRequest,
};
use crate::types::{DataTog, DevInfo, EndpointAddress, InterruptChannel, PortInfo, UsbSpeed};
use vstd::prelude::*;

verus! {

/// A hub that has been brought up.
#[derive(Clone, Copy, Debug, PartialEq, Eq)]
pub struct Hub {
    handle: DeviceHandle,
    interrupt_channel: InterruptChannel,
}

/// What a hub reports of its ports.
#[derive(Clone, Copy, Debug, PartialEq, Eq)]
pub enum HubEvent {
    /// A port with a new device is being reset; enumeration begins.
    DeviceReset,
    /// The reset of a port has ended: the device on it can be addressed.
    DeviceAttach(DevInfo),
    /// The device on a port has gone.
    DeviceDetach(PortInfo),
}

/// Set_Feature to a port of the hub.
pub open spec fn set_port_feature_request(port: u8, feature: u8) -> Request {
    Request::made(
        RequestTypeDirection::HostToDevice,
        RequestTypeType::Class,
        RequestTypeRecipient::Other,
        StandardDeviceRequest::SetFeature,
        feature as u16,
        port as u16,
        0,
    )
}

/// Clear_Feature to a port of the hub.
pub open spec fn clear_port_feature_request(port: u8, feature: u8) -> Request {
    Request::made(
        RequestTypeDirection::HostToDevice,
        RequestTypeType::Class,
        RequestTypeRecipient::Other,
        StandardDeviceRequest::ClearFeature,
        feature as u16,
        port as u16,
        0,
    )
}

/// Get_Status of a port of the hub: four bytes, status then change.
pub open spec fn port_status_request(port: u8) -> Request {
    Request::made(
        RequestTypeDirection::DeviceToHost,
        RequestTypeType::Class,
        RequestTypeRecipient::Other,
        StandardDeviceRequest::GetStatus,
        0,
        port as u16,
        4,
    )
}

/// Get_Descriptor for the hub class descriptor, of which seven bytes are read.
pub open spec fn hub_descriptor_request() -> Request {
    Request::made(
        RequestTypeDirection::DeviceToHost,
        RequestTypeType::Class,
        RequestTypeRecipient::Device,
        StandardDeviceRequest::GetDescriptor,
        0x2900,
        0,
        7,
    )
}

/// Get_Descriptor for the first configuration, into the drivers' buffer.
pub open spec fn configuration_request() -> Request {
    Request::made(
        RequestTypeDirection::DeviceToHost,
        RequestTypeType::Standard,
        RequestTypeRecipient::Device,
        StandardDeviceRequest::GetDescriptor,
        0x200,
        0,
        255,
    )
}

/// The selector of the PORT_POWER feature.
pub const PORT_POWER: u8 = 8;

/// The selector of the PORT_RESET feature.
pub const PORT_RESET: u8 = 4;

/// The selector of the C_PORT_CONNECTION feature.
pub const C_PORT_CONNECTION: u8 = 16;

/// The selector of the C_PORT_RESET feature.
pub const C_PORT_RESET: u8 = 20;

fn set_port_feature(port: u8, feature: u8) -> (r: Request)
    ensures
        r == set_port_feature_request(port, feature),
{
    Request::set_feature(
        RequestTypeRecipient::Other,
        RequestTypeType::Class,
        feature as u16,
        port as u16,
        0,
    )
}

fn clear_port_feature(port: u8, feature: u8) -> (r: Request)
    ensures
        r == clear_port_feature_request(port, feature),
{
    Request::clear_feature(
        RequestTypeRecipient::Other,
        RequestTypeType::Class,
        feature as u16,
        port as u16,
        0,
    )
}

fn get_port_status(port: u8) -> (r: Request)
    ensures
        r == port_status_request(port),
{
    Request::get_status(RequestTypeRecipient::Other, RequestTypeType::Class, 0, port as u16, 4)
}

// ---------------------------------------------------------------------------
// Bringing a hub up
// ---------------------------------------------------------------------------

/// What the records of a hub's configuration ask of the driver, in order.
#[derive(Clone, Copy, Debug, PartialEq, Eq, Structural)]
pub enum ScanItem {
    /// A configuration descriptor: select the configuration with this value.
    Configure(u8),
    /// An endpoint descriptor with this address byte.
    Endpoint(u8),
    /// A record that could not be read.
    Failed(UsbHostError),
}

/// What one record asks of the driver, if anything.
pub open spec fn scan_item(r: Result<Record, UsbHostError>) -> Seq<ScanItem> {
    match r {
        Ok(Record::Configuration(c)) => seq![ScanItem::Configure(c.value)],
        Ok(Record::Endpoint(e)) => seq![ScanItem::Endpoint(e.b_endpoint_address)],
        Ok(_) => Seq::empty(),
        Err(e) => seq![ScanItem::Failed(e)],
    }
}

/// What a list of records asks of the driver.
pub open spec fn plan_of(rs: Seq<Result<Record, UsbHostError>>) -> Seq<ScanItem>
    decreases rs.len(),
{
    if rs.len() == 0 {
        Seq::empty()
    } else {
        plan_of(rs.drop_last()) + scan_item(rs.last())
    }
}

/// Where the bringing up of a hub stands: which answer it waits for.
#[derive(Clone, Copy, Debug, PartialEq, Eq, Structural)]
pub enum SetupPhase {
    /// The configuration descriptor.
    Configuration,
    /// A Set_Configuration.
    Configure,
    /// The hub descriptor.
    HubDescriptor,
    /// The Set_Feature(PORT_POWER) of a port.
    PowerOn,
    /// The first reading of a port's status, which is not looked at.
    FirstStatus,
    /// The second reading of a port's status, which says whether the port
    /// has power.
    CheckStatus,
    /// The Set_Feature(PORT_POWER) of a port that had no power.
    PowerAgain,
}

/// The bringing up of a hub, in flight.
#[derive(Debug)]
pub struct HubSetup {
    handle: DeviceHandle,
    phase: SetupPhase,
    items: Vec<ScanItem>,
    cursor: usize,
    endpoint: Option<EndpointAddress>,
    number_of_ports: u8,
    port: u8,
}

/// The state of a [`HubSetup`] as a plain value.
pub struct HubSetupState {
    pub handle: DeviceHandle,
    pub phase: SetupPhase,
    /// What the configuration asks for.
    pub items: Seq<ScanItem>,
    /// How much of that has been done.
    pub cursor: int,
    /// The endpoint found so far.
    pub endpoint: Option<EndpointAddress>,
    pub number_of_ports: u8,
    /// The port whose answer is awaited.
    pub port: u8,
}

/// What the driver asks for next.
#[derive(Clone, Copy, Debug, PartialEq, Eq)]
pub enum HubSetupStep {
    /// Run this control transfer with a buffer of `capacity` zeroed bytes.
    Transfer { request: Request, capacity: usize },
    /// The hub is up, or could not be brought up.
    Finished(Result<Hub, UsbHostError>),
}

impl HubSetupState {
    /// The hub that comes out when all went well.
    pub open spec fn hub(self) -> Hub {
        Hub::made(self.handle, self.endpoint->Some_0)
    }

    /// Visits port `port` in the last round over the ports, in which each
    /// port's status is read again; past the last port the hub is up.
    pub open spec fn visit_check(self, port: int) -> (HubSetupState, HubSetupStep) {
        if port <= self.number_of_ports {
            (
                HubSetupState { phase: SetupPhase::CheckStatus, port: port as u8, ..self },
                HubSetupStep::Transfer { request: port_status_request(port as u8), capacity: 4 },
            )
        } else {
            (self, HubSetupStep::Finished(Ok(self.hub())))
        }
    }

    /// Visits port `port` in the round that reads each port's status for the
    /// first time; past the last port, a hub without an interrupt endpoint
    /// is turned down, and the last round begins.
    pub open spec fn visit_first(self, port: int) -> (HubSetupState, HubSetupStep) {
        if port <= self.number_of_ports {
            (
                HubSetupState { phase: SetupPhase::FirstStatus, port: port as u8, ..self },
                HubSetupStep::Transfer { request: port_status_request(port as u8), capacity: 4 },
            )
        } else if self.endpoint is None {
            (self, HubSetupStep::Finished(Err(UsbHostError::InvalidResponse)))
        } else {
            self.visit_check(1)
        }
    }

    /// Visits port `port` in the round that powers each port; past the last
    /// port the next round begins.
    pub open spec fn visit_power(self, port: int) -> (HubSetupState, HubSetupStep) {
        if port <= self.number_of_ports {
            (
                HubSetupState { phase: SetupPhase::PowerOn, port: port as u8, ..self },
                HubSetupStep::Transfer {
                    request: set_port_feature_request(port as u8, PORT_POWER),
                    capacity: 0,
                },
            )
        } else {
            self.visit_first(1)
        }
    }

    /// Goes on through what the configuration asks for. A configuration is
    /// selected by a Set_Configuration; an endpoint is noted, and a second
    /// one is an invalid response; a record that could not be read ends the
    /// bringing up with its error. At the end the hub descriptor is read.
    pub open spec fn scan(self) -> (HubSetupState, HubSetupStep)
        decreases self.items.len() - self.cursor,
    {
        if self.cursor < 0 || self.cursor >= self.items.len() {
            (
                HubSetupState { phase: SetupPhase::HubDescriptor, ..self },
                HubSetupStep::Transfer { request: hub_descriptor_request(), capacity: 7 },
            )
        } else {
            match self.items[self.cursor] {
                ScanItem::Configure(v) => (
                    HubSetupState { phase: SetupPhase::Configure, cursor: self.cursor + 1, ..self },
                    HubSetupStep::Transfer {
                        request: Request::made(
                            RequestTypeDirection::HostToDevice,
                            RequestTypeType::Standard,
                            RequestTypeRecipient::Device,
                            StandardDeviceRequest::SetConfiguration,
                            v as u16,
                            0,
                            0,
                        ),
                        capacity: 0,
                    },
                ),
                ScanItem::Endpoint(b) => if self.endpoint is Some {
                    (self, HubSetupStep::Finished(Err(UsbHostError::InvalidResponse)))
                } else {
                    (HubSetupState {
                        endpoint: Some(EndpointAddress::of_byte(b)),
                        cursor: self.cursor + 1,
                        ..self
                    }).scan()
                },
                ScanItem::Failed(e) => (self, HubSetupStep::Finished(Err(e))),
            }
        }
    }

    /// The state after the transfer asked for ended in `result`, with `data`
    /// in its buffer, and what is asked for next.
    ///
    /// A transfer that fails ends the bringing up with its error, but for
    /// the last round: there a port whose status cannot be read, or comes
    /// back with other than four bytes, is passed over, and so is one whose
    /// power cannot be switched on.
    pub open spec fn after(self, result: Result<usize, UsbHostError>, data: Seq<u8>) -> (
        HubSetupState,
        HubSetupStep,
    ) {
        match self.phase {
            SetupPhase::Configuration => match result {
                Err(e) => (self, HubSetupStep::Finished(Err(e))),
                Ok(len) => match configuration_fault(data.subrange(0, len as int), data.len() as int) {
                    Some(e) => (self, HubSetupStep::Finished(Err(e))),
                    None => (HubSetupState {
                        items: plan_of(records(data.subrange(0, len as int))),
                        cursor: 0,
                        ..self
                    }).scan(),
                },
            },
            SetupPhase::Configure => match result {
                Err(e) => (self, HubSetupStep::Finished(Err(e))),
                Ok(_) => self.scan(),
            },
            SetupPhase::HubDescriptor => match result {
                Err(e) => (self, HubSetupStep::Finished(Err(e))),
                Ok(_) => (HubSetupState { number_of_ports: data[2], ..self }).visit_power(1),
            },
            SetupPhase::PowerOn => match result {
                Err(e) => (self, HubSetupStep::Finished(Err(e))),
                Ok(_) => self.visit_power(self.port + 1),
            },
            SetupPhase::FirstStatus => match result {
                Err(e) => (self, HubSetupStep::Finished(Err(e))),
                Ok(_) => self.visit_first(self.port + 1),
            },
            SetupPhase::CheckStatus => if result == Ok::<usize, UsbHostError>(4) && le16(data, 0)
                & 0x100 == 0 {
                (
                    HubSetupState { phase: SetupPhase::PowerAgain, ..self },
                    HubSetupStep::Transfer {
                        request: set_port_feature_request(self.port, PORT_POWER),
                        capacity: 0,
                    },
                )
            } else {
                self.visit_check(self.port + 1)
            },
            SetupPhase::PowerAgain => self.visit_check(self.port + 1),
        }
    }

    /// The buffer that the answer to the request under way has to come in.
    pub open spec fn fits(self, result: Result<usize, UsbHostError>, data: Seq<u8>) -> bool {
        match self.phase {
            SetupPhase::Configuration => result matches Ok(len) ==> len <= data.len(),
            SetupPhase::HubDescriptor => result is Ok ==> data.len() >= 7,
            SetupPhase::CheckStatus => result is Ok ==> data.len() >= 4,
            _ => true,
        }
    }
}

impl View for HubSetup {
    type V = HubSetupState;

    closed spec fn view(&self) -> HubSetupState {
        HubSetupState {
            handle: self.handle,
            phase: self.phase,
            items: self.items@,
            cursor: self.cursor as int,
            endpoint: self.endpoint,
            number_of_ports: self.number_of_ports,
            port: self.port,
        }
    }
}

impl HubSetup {
    /// The cursor stays within the plan and the port within the hub's ports.
    pub open spec fn wf(&self) -> bool {
        &&& 0 <= self@.cursor <= self@.items.len()
        &&& (self@.phase is PowerOn || self@.phase is FirstStatus || self@.phase is CheckStatus
            || self@.phase is PowerAgain) ==> 1 <= self@.port <= self@.number_of_ports
        &&& (self@.phase is CheckStatus || self@.phase is PowerAgain) ==> self@.endpoint is Some
    }

    fn visit_check(&mut self, port: u16) -> (r: HubSetupStep)
        requires
            1 <= port <= 256,
            old(self)@.endpoint is Some,
            0 <= old(self)@.cursor <= old(self)@.items.len(),
        ensures
            (final(self)@, r) == old(self)@.visit_check(port as int),
            r is Transfer ==> final(self).wf(),
    {
        if port <= self.number_of_ports as u16 {
            self.phase = SetupPhase::CheckStatus;
            self.port = port as u8;
            HubSetupStep::Transfer { request: get_port_status(port as u8), capacity: 4 }
        } else {
            match self.endpoint {
                Some(endpoint) => HubSetupStep::Finished(
                    Ok(
                        Hub {
                            handle: self.handle,
                            interrupt_channel: InterruptChannel::new(self.handle, endpoint),
                        },
                    ),
                ),
                None => HubSetupStep::Finished(Err(UsbHostError::InvalidResponse)),
            }
        }
    }

    fn visit_first(&mut self, port: u16) -> (r: HubSetupStep)
        requires
            1 <= port <= 256,
            0 <= old(self)@.cursor <= old(self)@.items.len(),
        ensures
            (final(self)@, r) == old(self)@.visit_first(port as int),
            r is Transfer ==> final(self).wf(),
    {
        if port <= self.number_of_ports as u16 {
            self.phase = SetupPhase::FirstStatus;
            self.port = port as u8;
            HubSetupStep::Transfer { request: get_port_status(port as u8), capacity: 4 }
        } else if self.endpoint.is_none() {
            HubSetupStep::Finished(Err(UsbHostError::InvalidResponse))
        } else {
            self.visit_check(1)
        }
    }

    fn visit_power(&mut self, port: u16) -> (r: HubSetupStep)
        requires
            1 <= port <= 256,
            0 <= old(self)@.cursor <= old(self)@.items.len(),
        ensures
            (final(self)@, r) == old(self)@.visit_power(port as int),
            r is Transfer ==> final(self).wf(),
    {
        if port <= self.number_of_ports as u16 {
            self.phase = SetupPhase::PowerOn;
            self.port = port as u8;
            HubSetupStep::Transfer { request: set_port_feature(port as u8, PORT_POWER), capacity: 0 }
        } else {
            self.visit_first(1)
        }
    }

    fn scan(&mut self) -> (r: HubSetupStep)
        requires
            0 <= old(self)@.cursor <= old(self)@.items.len(),
        ensures
            (final(self)@, r) == old(self)@.scan(),
            r is Transfer ==> final(self).wf(),
    {
        while self.cursor < self.items.len()
            invariant
                0 <= self@.cursor <= self@.items.len(),
                self@.scan() == old(self)@.scan(),
            decreases self.items.len() - self.cursor,
        {
            match self.items[self.cursor] {
                ScanItem::Configure(v) => {
                    self.phase = SetupPhase::Configure;
                    self.cursor = self.cursor + 1;
                    return HubSetupStep::Transfer {
                        request: Request::set_configuration(v),
                        capacity: 0,
                    };
                },
                ScanItem::Endpoint(b) => {
                    if self.endpoint.is_some() {
                        return HubSetupStep::Finished(Err(UsbHostError::InvalidResponse));
                    }
                    self.endpoint = Some(EndpointAddress::from_byte(b));
                    self.cursor = self.cursor + 1;
                },
                ScanItem::Failed(e) => {
                    return HubSetupStep::Finished(Err(e));
                },
            }
        }
        self.phase = SetupPhase::HubDescriptor;
        HubSetupStep::Transfer {
            request: Request::get_descriptor(0x29, RequestTypeType::Class, 0, 0, 7),
            capacity: 7,
        }
    }

    /// Takes the result of the transfer asked for, and the buffer it filled,
    /// and says what is asked for next.
    pub fn step(&mut self, result: Result<usize, UsbHostError>, data: &[u8]) -> (r: HubSetupStep)
        requires
            old(self).wf(),
            old(self)@.fits(result, data@),
        ensures
            (final(self)@, r) == old(self)@.after(result, data@),
            r is Transfer ==> final(self).wf(),
    {
        match self.phase {
            SetupPhase::Configuration => match result {
                Err(e) => HubSetupStep::Finished(Err(e)),
                Ok(len) => match get_configuration_descriptor(data, len) {
                    Err(e) => HubSetupStep::Finished(Err(e)),
                    Ok(reader) => {
                        assert(reader.rest() =~= data@.subrange(0, len as int));
                        let found = reader.collect();
                        self.items = plan(&found, Ghost(records(data@.subrange(0, len as int))));
                        self.cursor = 0;
                        self.scan()
                    },
                },
            },
            SetupPhase::Configure => match result {
                Err(e) => HubSetupStep::Finished(Err(e)),
                Ok(_) => self.scan(),
            },
            SetupPhase::HubDescriptor => match result {
                Err(e) => HubSetupStep::Finished(Err(e)),
                Ok(_) => {
                    let descriptor = HubDescriptor::from_bytes(data);
                    self.number_of_ports = descriptor.number_of_ports;
                    self.visit_power(1)
                },
            },
            SetupPhase::PowerOn => match result {
                Err(e) => HubSetupStep::Finished(Err(e)),
                Ok(_) => self.visit_power(self.port as u16 + 1),
            },
            SetupPhase::FirstStatus => match result {
                Err(e) => HubSetupStep::Finished(Err(e)),
                Ok(_) => self.visit_first(self.port as u16 + 1),
            },
            SetupPhase::CheckStatus => {
                let unpowered = match result {
                    Ok(len) => len == 4 && !HubPortStatus::from(read_le16(data, 0)).power(),
                    Err(_) => false,
                };
                if unpowered {
                    self.phase = SetupPhase::PowerAgain;
                    HubSetupStep::Transfer {
                        request: set_port_feature(self.port, PORT_POWER),
                        capacity: 0,
                    }
                } else {
                    self.visit_check(self.port as u16 + 1)
                }
            },
            SetupPhase::PowerAgain => self.visit_check(self.port as u16 + 1),
        }
    }
}

/// Reads off a list of records what they ask of the hub driver.
fn plan(found: &Vec<Result<Descriptor<'_>, UsbHostError>>, Ghost(rs): Ghost<Seq<Result<Record, UsbHostError>>>) -> (items: Vec<ScanItem>)
    requires
        found@.len() == rs.len(),
        forall|k: int| 0 <= k < found@.len() ==> item_view(#[trigger] found@[k]) == rs[k],
    ensures
        items@ == plan_of(rs),
{
    let mut items: Vec<ScanItem> = Vec::new();
    let mut i: usize = 0;
    assert(rs.take(0) =~= Seq::empty());
    while i < found.len()
        invariant
            i <= found@.len(),
            found@.len() == rs.len(),
            forall|k: int| 0 <= k < found@.len() ==> item_view(#[trigger] found@[k]) == rs[k],
            items@ == plan_of(rs.take(i as int)),
        decreases found.len() - i,
    {
        proof {
            assert(rs.take(i + 1).drop_last() =~= rs.take(i as int));
            assert(rs.take(i + 1).last() == rs[i as int]);
            assert(item_view(found@[i as int]) == rs[i as int]);
        }
        match &found[i] {
            Ok(Descriptor::Configuration(c)) => items.push(ScanItem::Configure(c.value)),
            Ok(Descriptor::Endpoint(e)) => items.push(ScanItem::Endpoint(e.b_endpoint_address)),
            Ok(_) => {
                assert(items@ + Seq::<ScanItem>::empty() =~= items@);
            },
            Err(e) => items.push(ScanItem::Failed(*e)),
        }
        i += 1;
    }
    assert(rs.take(i as int) =~= rs);
    items
}

impl Hub {
    /// The hub with the given handle and status-change endpoint; its channel
    /// starts at DATA0.
    pub closed spec fn made(handle: DeviceHandle, endpoint: EndpointAddress) -> Hub {
        Hub {
            handle,
            interrupt_channel: InterruptChannel::made(handle, endpoint, DataTog::DATA0),
        }
    }

    pub closed spec fn spec_handle(&self) -> DeviceHandle {
        self.handle
    }

    pub closed spec fn spec_interrupt_channel(&self) -> InterruptChannel {
        self.interrupt_channel
    }

    /// A hub reads back as what it was made of.
    pub proof fn lemma_made(handle: DeviceHandle, endpoint: EndpointAddress)
        ensures
            Hub::made(handle, endpoint).handle() == handle,
            Hub::made(handle, endpoint).interrupt_channel().device_handle() == handle,
            Hub::made(handle, endpoint).interrupt_channel().endpoint_address() == endpoint,
            Hub::made(handle, endpoint).interrupt_channel().tog() == DataTog::DATA0,
    {
        InterruptChannel::lemma_made(handle, endpoint, DataTog::DATA0);
    }

    #[verifier::when_used_as_spec(spec_handle)]
    pub fn handle(&self) -> (r: DeviceHandle)
        ensures
            r == self.handle(),
    {
        self.handle
    }

    #[verifier::when_used_as_spec(spec_interrupt_channel)]
    pub fn interrupt_channel(&self) -> (r: InterruptChannel)
        ensures
            r == self.interrupt_channel(),
    {
        self.interrupt_channel
    }

    /// Ends an interrupt transfer on the hub's channel: the channel's toggle
    /// flips if the transfer succeeded, and only then.
    pub fn interrupt_transfer_done(&mut self, result: Result<usize, UsbHostError>)
        ensures
            final(self).handle() == old(self).handle(),
            final(self).interrupt_channel().device_handle() == old(self).interrupt_channel().device_handle(),
            final(self).interrupt_channel().endpoint_address() == old(
                self,
            ).interrupt_channel().endpoint_address(),
            final(self).interrupt_channel().tog() == (if result is Ok {
                old(self).interrupt_channel().tog().flipped()
            } else {
                old(self).interrupt_channel().tog()
            }),
    {
        if result.is_ok() {
            self.interrupt_channel.advance();
        }
    }

    /// Starts to bring a hub up: the first request reads the configuration
    /// descriptor into a buffer of 255 bytes.
    pub fn new(handle: DeviceHandle, _descriptor: DeviceDescriptor) -> (r: (HubSetup, HubSetupStep))
        ensures
            r.0@ == (HubSetupState {
                handle,
                phase: SetupPhase::Configuration,
                items: Seq::empty(),
                cursor: 0,
                endpoint: None,
                number_of_ports: 0,
                port: 0,
            }),
            r.1 == (HubSetupStep::Transfer {
                request: configuration_request(),
                capacity: CONFIGURATION_BUFFER_LEN,
            }),
            r.0.wf(),
    {
        let setup = HubSetup {
            handle,
            phase: SetupPhase::Configuration,
            items: Vec::new(),
            cursor: 0,
            endpoint: None,
            number_of_ports: 0,
            port: 0,
        };
        let request = Request::get_configuration_descriptor(0, CONFIGURATION_BUFFER_LEN as u16);
        (setup, HubSetupStep::Transfer { request, capacity: CONFIGURATION_BUFFER_LEN })
    }
}

// ---------------------------------------------------------------------------
// Polling a hub
// ---------------------------------------------------------------------------

/// `ports` lists the positions of the bits that are set in `bytes`, each
/// once, in rising order.
pub open spec fn is_listing(ports: Seq<usize>, bytes: Seq<u8>) -> bool {
    &&& forall|k: int| 0 <= k < ports.len() ==> (#[trigger] ports[k]) < 128 && byte_bit(bytes, ports[k] as int)
    &&& forall|i: int|
        0 <= i < 128 && byte_bit(bytes, i) ==> exists|k: int| 0 <= k < ports.len() && #[trigger] ports[k] == i
    &&& forall|j: int, k: int| 0 <= j < k < ports.len() ==> #[trigger] ports[j] < #[trigger] ports[k]
}

/// Where the polling of a hub stands: which answer it waits for.
#[derive(Clone, Copy, Debug, PartialEq, Eq, Structural)]
pub enum PollPhase {
    /// The status of a flagged port.
    PortStatus,
    /// The clearing of C_PORT_CONNECTION, before the port is reset.
    ClearConnectionForReset,
    /// The setting of PORT_RESET.
    SetReset,
    /// The clearing of C_PORT_CONNECTION of a port that lost its device.
    ClearConnectionForDetach,
    /// The clearing of C_PORT_RESET.
    ClearReset,
}

/// One poll of a hub, in flight.
#[derive(Debug)]
pub struct HubPoll {
    address: u8,
    dev_info: DevInfo,
    enumeration_in_progress: bool,
    ports: Vec<usize>,
    cursor: usize,
    phase: PollPhase,
    port: u8,
    status: HubPortStatus,
}

/// The state of a [`HubPoll`] as a plain value.
pub struct HubPollState {
    /// The address of the hub.
    pub address: u8,
    /// What is known of the hub itself.
    pub dev_info: DevInfo,
    pub enumeration_in_progress: bool,
    /// The flagged ports, in rising order.
    pub ports: Seq<usize>,
    /// How many of them have been looked at.
    pub cursor: int,
    pub phase: PollPhase,
    /// The port whose answer is awaited.
    pub port: u8,
    /// The status of that port, once read.
    pub status: HubPortStatus,
}

/// What the driver asks for next.
#[derive(Clone, Copy, Debug, PartialEq, Eq)]
pub enum HubPollStep {
    /// Run this control transfer with a buffer of `capacity` zeroed bytes.
    Transfer { request: Request, capacity: usize },
    /// The poll is over: with an event, with nothing to report, or with an
    /// error.
    Finished(Result<Option<HubEvent>, UsbHostError>),
}

impl HubPollState {
    /// Turns to the next flagged port, passing over bit 0, which stands for
    /// the hub itself. When no port is left the poll has nothing to report.
    pub open spec fn next_port(self) -> (HubPollState, HubPollStep)
        decreases self.ports.len() - self.cursor,
    {
        if self.cursor < 0 || self.cursor >= self.ports.len() {
            (self, HubPollStep::Finished(Ok(None)))
        } else if self.ports[self.cursor] == 0 {
            (HubPollState { cursor: self.cursor + 1, ..self }).next_port()
        } else {
            (
                HubPollState {
                    phase: PollPhase::PortStatus,
                    port: self.ports[self.cursor] as u8,
                    cursor: self.cursor + 1,
                    ..self
                },
                HubPollStep::Transfer {
                    request: port_status_request(self.ports[self.cursor] as u8),
                    capacity: 4,
                },
            )
        }
    }

    /// The transaction translator of a device of the given speed on the
    /// port under way: this hub, if it runs at high speed and the device does
    /// not; else the hub's own translator.
    pub open spec fn child_translator(self, speed: UsbSpeed) -> Option<(u8, u8)> {
        if self.dev_info.speed() == UsbSpeed::HighSpeed && speed != UsbSpeed::HighSpeed {
            Some((self.address, self.port))
        } else {
            self.dev_info.transaction_translator()
        }
    }

    /// What is known of the device on the port under way, once its reset has
    /// ended.
    pub open spec fn child(self) -> DevInfo {
        DevInfo::made(
            PortInfo::made(0x80 | self.address, self.port),
            self.child_translator(self.status.speed()),
            self.status.speed(),
        )
    }

    /// The port under way, as the address table knows it.
    pub open spec fn port_info(self) -> PortInfo {
        PortInfo::made(0x80 | self.address, self.port)
    }

    /// What the driver does once it has the change bit of a reset, or has
    /// none: with the bit set it clears C_PORT_RESET, without it it turns to
    /// the next port.
    pub open spec fn on_reset_change(self, status: HubPortStatus, change: HubPortStatusChange) -> (
        HubPollState,
        HubPollStep,
    ) {
        if change.0 & 0x10 != 0 {
            (
                HubPollState { phase: PollPhase::ClearReset, status, ..self },
                HubPollStep::Transfer {
                    request: clear_port_feature_request(self.port, C_PORT_RESET),
                    capacity: 0,
                },
            )
        } else {
            self.next_port()
        }
    }

    /// What the driver does with the status and the change bits of a port.
    ///
    /// A connection change on a port that has a device starts the reset of
    /// the port, unless an enumeration is in progress: then the change bit
    /// is left alone. A connection change on a port without a device is a
    /// detach. Either begins by clearing C_PORT_CONNECTION.
    pub open spec fn on_status(self, status: HubPortStatus, change: HubPortStatusChange) -> (
        HubPollState,
        HubPollStep,
    ) {
        if change.0 & 0x1 != 0 {
            if status.0 & 0x1 != 0 {
                if !self.enumeration_in_progress {
                    (
                        HubPollState { phase: PollPhase::ClearConnectionForReset, status, ..self },
                        HubPollStep::Transfer {
                            request: clear_port_feature_request(self.port, C_PORT_CONNECTION),
                            capacity: 0,
                        },
                    )
                } else {
                    self.on_reset_change(status, change)
                }
            } else {
                (
                    HubPollState { phase: PollPhase::ClearConnectionForDetach, status, ..self },
                    HubPollStep::Transfer {
                        request: clear_port_feature_request(self.port, C_PORT_CONNECTION),
                        capacity: 0,
                    },
                )
            }
        } else {
            self.on_reset_change(status, change)
        }
    }

    /// The state after the transfer asked for ended in `result`, with `data`
    /// in its buffer, and what is asked for next.
    ///
    /// A port whose status cannot be read, or comes back with other than
    /// four bytes, is passed over. A Set_Feature or Clear_Feature that fails
    /// ends the poll with its error.
    pub open spec fn after(self, result: Result<usize, UsbHostError>, data: Seq<u8>) -> (
        HubPollState,
        HubPollStep,
    ) {
        match self.phase {
            PollPhase::PortStatus => if result == Ok::<usize, UsbHostError>(4) {
                self.on_status(HubPortStatus(le16(data, 0)), HubPortStatusChange(le16(data, 2)))
            } else {
                self.next_port()
            },
            PollPhase::ClearConnectionForReset => match result {
                Err(e) => (self, HubPollStep::Finished(Err(e))),
                Ok(_) => (
                    HubPollState { phase: PollPhase::SetReset, ..self },
                    HubPollStep::Transfer {
                        request: set_port_feature_request(self.port, PORT_RESET),
                        capacity: 0,
                    },
                ),
            },
            PollPhase::SetReset => match result {
                Err(e) => (self, HubPollStep::Finished(Err(e))),
                Ok(_) => (self, HubPollStep::Finished(Ok(Some(HubEvent::DeviceReset)))),
            },
            PollPhase::ClearConnectionForDetach => match result {
                Err(e) => (self, HubPollStep::Finished(Err(e))),
                Ok(_) => (
                    self,
                    HubPollStep::Finished(Ok(Some(HubEvent::DeviceDetach(self.port_info())))),
                ),
            },
            PollPhase::ClearReset => match result {
                Err(e) => (self, HubPollStep::Finished(Err(e))),
                Ok(_) => if self.status.0 & 0x10 == 0 {
                    (self, HubPollStep::Finished(Ok(Some(HubEvent::DeviceAttach(self.child())))))
                } else {
                    self.next_port()
                },
            },
        }
    }

    /// The state in which a poll starts to go through the flagged ports.
    pub open spec fn start(
        address: u8,
        dev_info: DevInfo,
        enumeration_in_progress: bool,
        ports: Seq<usize>,
    ) -> HubPollState {
        HubPollState {
            address,
            dev_info,
            enumeration_in_progress,
            ports,
            cursor: 0,
            phase: PollPhase::PortStatus,
            port: 0,
            status: HubPortStatus(0),
        }
    }
}

impl View for HubPoll {
    type V = HubPollState;

    closed spec fn view(&self) -> HubPollState {
        HubPollState {
            address: self.address,
            dev_info: self.dev_info,
            enumeration_in_progress: self.enumeration_in_progress,
            ports: self.ports@,
            cursor: self.cursor as int,
            phase: self.phase,
            port: self.port,
            status: self.status,
        }
    }
}

/// Turning to the next port leaves the hub and the flagged ports as they
/// are.
pub proof fn lemma_next_port_keeps(s: HubPollState)
    ensures
        s.next_port().0.ports == s.ports,
        s.next_port().0.address == s.address,
        s.next_port().0.dev_info == s.dev_info,
        s.next_port().0.enumeration_in_progress == s.enumeration_in_progress,
    decreases s.ports.len() - s.cursor,
{
    if 0 <= s.cursor < s.ports.len() && s.ports[s.cursor] == 0 {
        lemma_next_port_keeps(HubPollState { cursor: s.cursor + 1, ..s });
    }
}

proof fn lemma_hub_address_bits(a: u8)
    by (bit_vector)
    requires
        1 <= a <= 127,
    ensures
        a & 0x7F != 0,
        a & 0x7F == a,
        (0x80u8 | a) & 0x7F == a,
        (0x80u8 | a) & 0x80 != 0,
{
}

impl HubPoll {
    /// The hub has an address, the flagged ports are below 128, and the
    /// cursor stays within them.
    pub open spec fn wf(&self) -> bool {
        &&& 1 <= self@.address <= 127
        &&& 0 <= self@.cursor <= self@.ports.len()
        &&& forall|k: int| 0 <= k < self@.ports.len() ==> (#[trigger] self@.ports[k]) < 128
    }

    fn next_port(&mut self) -> (r: HubPollStep)
        requires
            old(self).wf(),
        ensures
            (final(self)@, r) == old(self)@.next_port(),
            final(self).wf(),
    {
        while self.cursor < self.ports.len()
            invariant
                self.wf(),
                self@.next_port() == old(self)@.next_port(),
            decreases self.ports.len() - self.cursor,
        {
            let port = self.ports[self.cursor];
            self.cursor = self.cursor + 1;
            if port != 0 {
                self.phase = PollPhase::PortStatus;
                self.port = port as u8;
                return HubPollStep::Transfer { request: get_port_status(port as u8), capacity: 4 };
            }
        }
        HubPollStep::Finished(Ok(None))
    }

    fn on_reset_change(&mut self, status: HubPortStatus, change: HubPortStatusChange) -> (r: HubPollStep)
        requires
            old(self).wf(),
        ensures
            (final(self)@, r) == old(self)@.on_reset_change(status, change),
            final(self).wf(),
    {
        if change.reset() {
            self.phase = PollPhase::ClearReset;
            self.status = status;
            HubPollStep::Transfer { request: clear_port_feature(self.port, C_PORT_RESET), capacity: 0 }
        } else {
            self.next_port()
        }
    }

    /// Takes the result of the transfer asked for, and the buffer it filled,
    /// and says what is asked for next.
    pub fn step(&mut self, result: Result<usize, UsbHostError>, data: &[u8]) -> (r: HubPollStep)
        requires
            old(self).wf(),
            (old(self)@.phase is PortStatus && result is Ok) ==> data@.len() >= 4,
        ensures
            (final(self)@, r) == old(self)@.after(result, data@),
            final(self).wf(),
    {
        match self.phase {
            PollPhase::PortStatus => {
                let whole = match result {
                    Ok(len) => len == 4,
                    Err(_) => false,
                };
                if !whole {
                    return self.next_port();
                }
                let status = HubPortStatus::from(read_le16(data, 0));
                let change = HubPortStatusChange::from(read_le16(data, 2));
                if change.connection() {
                    if status.connected() {
                        if !self.enumeration_in_progress {
                            self.phase = PollPhase::ClearConnectionForReset;
                            self.status = status;
                            return HubPollStep::Transfer {
                                request: clear_port_feature(self.port, C_PORT_CONNECTION),
                                capacity: 0,
                            };
                        }
                    } else {
                        self.phase = PollPhase::ClearConnectionForDetach;
                        self.status = status;
                        return HubPollStep::Transfer {
                            request: clear_port_feature(self.port, C_PORT_CONNECTION),
                            capacity: 0,
                        };
                    }
                }
                self.on_reset_change(status, change)
            },
            PollPhase::ClearConnectionForReset => match result {
                Err(e) => HubPollStep::Finished(Err(e)),
                Ok(_) => {
                    self.phase = PollPhase::SetReset;
                    HubPollStep::Transfer {
                        request: set_port_feature(self.port, PORT_RESET),
                        capacity: 0,
                    }
                },
            },
            PollPhase::SetReset => match result {
                Err(e) => HubPollStep::Finished(Err(e)),
                Ok(_) => HubPollStep::Finished(Ok(Some(HubEvent::DeviceReset))),
            },
            PollPhase::ClearConnectionForDetach => match result {
                Err(e) => HubPollStep::Finished(Err(e)),
                Ok(_) => HubPollStep::Finished(
                    Ok(Some(HubEvent::DeviceDetach(PortInfo::new(0x80 | self.address, self.port)))),
                ),
            },
            PollPhase::ClearReset => match result {
                Err(e) => HubPollStep::Finished(Err(e)),
                Ok(_) => {
                    if !self.status.reset() {
                        let speed = self.status.speed();
                        let translator = match (self.dev_info.speed(), speed) {
                            (UsbSpeed::HighSpeed, UsbSpeed::FullSpeed) => Some(
                                (self.address, self.port),
                            ),
                            (UsbSpeed::HighSpeed, UsbSpeed::LowSpeed) => Some(
                                (self.address, self.port),
                            ),
                            (_, _) => self.dev_info.transaction_translator(),
                        };
                        proof {
                            lemma_hub_address_bits(self.address);
                        }
                        HubPollStep::Finished(
                            Ok(
                                Some(
                                    HubEvent::DeviceAttach(
                                        DevInfo::new(self.address, self.port, translator, speed),
                                    ),
                                ),
                            ),
                        )
                    } else {
                        self.next_port()
                    }
                },
            },
        }
    }
}

impl Hub {
    /// Starts a poll of the hub, once the interrupt transfer on its
    /// status-change endpoint has ended in `result` with `in_buf` as its
    /// buffer.
    ///
    /// A NAK means that nothing happened. Any other error ends the poll.
    /// Otherwise the bits that are set in the buffer name the ports to look
    /// at, and the poll turns to the first of them.
    pub fn poll(
        &self,
        enumeration_in_progress: bool,
        result: Result<usize, UsbHostError>,
        in_buf: &[u8; 16],
    ) -> (r: (HubPoll, HubPollStep))
        requires
            1 <= self.handle().address() <= 127,
        ensures
            result matches Err(e) ==> r.1 == (if e == UsbHostError::NAK {
                HubPollStep::Finished(Ok(None))
            } else {
                HubPollStep::Finished(Err(e))
            }),
            result is Ok ==> is_listing(r.0@.ports, in_buf@) && (r.0@, r.1) == HubPollState::start(
                self.handle().address(),
                self.handle().dev_info(),
                enumeration_in_progress,
                r.0@.ports,
            ).next_port(),
            r.0.wf(),
    {
        let mut poll = HubPoll {
            address: self.handle.address(),
            dev_info: self.handle.dev_info(),
            enumeration_in_progress,
            ports: Vec::new(),
            cursor: 0,
            phase: PollPhase::PortStatus,
            port: 0,
            status: HubPortStatus::default(),
        };
        match result {
            Err(UsbHostError::NAK) => (poll, HubPollStep::Finished(Ok(None))),
            Err(e) => (poll, HubPollStep::Finished(Err(e))),
            Ok(_) => {
                let flagged = bits_from_bytes(*in_buf);
                poll.ports = bits_ones(&flagged);
                proof {
                    let ports = poll.ports@;
                    assert forall|k: int| 0 <= k < ports.len() implies (#[trigger] ports[k]) < 128
                        && byte_bit(in_buf@, ports[k] as int) by {
                        assert(set_bits_of(in_buf@).contains(ports[k] as int));
                    }
                    assert forall|i: int| 0 <= i < 128 && byte_bit(in_buf@, i) implies exists|k: int|
                        0 <= k < ports.len() && #[trigger] ports[k] == i by {
                        assert(set_bits_of(in_buf@).contains(i));
                    }
                    assert(is_listing(ports, in_buf@));
                    lemma_next_port_keeps(poll@);
                }
                let step = poll.next_port();
                (poll, step)
            },
        }
    }
}

/// The device that an attach reports sits on the port under way, below this
/// hub. A classic-speed device below a high-speed hub goes through this
/// hub's translator on that port; any other device inherits the hub's
/// translator. If the hub's own record has no translator at high speed,
/// and the device is not faster than the hub, the same holds of the
/// device's record.
pub proof fn lemma_child_translator(s: HubPollState)
    requires
        1 <= s.address <= 127,
    ensures
        s.child().port() == s.port_info(),
        !s.child().port().empty(),
        s.child().port().parent() == s.address,
        s.child().port().port_number() == s.port,
        s.child().speed() == s.status.speed(),
        (s.dev_info.speed() == UsbSpeed::HighSpeed && s.status.speed() != UsbSpeed::HighSpeed)
            ==> s.child().transaction_translator() == Some((s.address, s.port)),
        !(s.dev_info.speed() == UsbSpeed::HighSpeed && s.status.speed() != UsbSpeed::HighSpeed)
            ==> s.child().transaction_translator() == s.dev_info.transaction_translator(),
        (s.dev_info.tt_consistent() && (s.status.speed() == UsbSpeed::HighSpeed ==> s.dev_info.speed()
            == UsbSpeed::HighSpeed)) ==> s.child().tt_consistent(),
{
    lemma_hub_address_bits(s.address);
    PortInfo::lemma_made(0x80 | s.address, s.port);
    DevInfo::lemma_made(s.port_info(), s.child_translator(s.status.speed()), s.status.speed());
}

/// While an enumeration is in progress, a port that reports a new device
/// and no end of a reset is left as it is: its change bit stays latched, no
/// request goes to it, and the poll turns to the next flagged port.
pub proof fn lemma_deferred_while_enumerating(s: HubPollState, data: Seq<u8>)
    requires
        s.phase is PortStatus,
        s.enumeration_in_progress,
        le16(data, 2) & 0x1 != 0,
        le16(data, 0) & 0x1 != 0,
        le16(data, 2) & 0x10 == 0,
    ensures
        s.after(Ok(4), data) == s.next_port(),
{
}

} // verus!
