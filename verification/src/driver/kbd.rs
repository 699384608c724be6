//! The HID keyboard class driver: configuring a keyboard, and reading its
//! reports.

use crate::descriptor::{item_view, records, Descriptor, DeviceDescriptor, Record};
use crate::device_addr::DeviceHandle;
use crate::driver::hub::configuration_request;
use crate::driver::{configuration_fault, get_configuration_descriptor, CONFIGURATION_BUFFER_LEN};
use crate::errors::UsbHostError;
use crate::request::{
    Request, RequestType, RequestTypeDirection, RequestTypeRecipient, RequestTypeType,
    StandardDeviceRequest,
};
use crate::types::{DataTog, EndpointAddress, InterruptChannel};
use vstd::prelude::*;

verus! {

/// The length of a keyboard report in boot protocol.
pub const REPORT_LEN: usize = 8;

/// How long the driver waits between two polls, in milliseconds.
pub const POLL_INTERVAL_MS: u64 = 10;

/// A keyboard.
#[derive(Clone, Copy, Debug, PartialEq, Eq)]
pub struct HidKbd {
    pub device: DeviceHandle,
    pub interrupt_channel: Option<InterruptChannel>,
}

/// A key that a report shows as pressed.
#[derive(Clone, Copy, Debug, PartialEq, Eq, Structural)]
pub struct KeyPress {
    /// The usage code of the key.
    pub code: u8,
    /// The character of the key, without regard to modifiers.
    pub ascii: char,
}

/// What a report says.
#[derive(Debug)]
pub struct KeyboardReport {
    /// One bit per modifier key, left control in bit 0 to right GUI in bit 7.
    pub modifiers: u8,
    /// The keys that are pressed, in the order of the report.
    pub keys: Vec<KeyPress>,
}

/// The character of a key: letters, then the digits from 1 on, then some
/// punctuation; a question mark for every other key.
pub open spec fn ascii_of(key: u8) -> char {
    if 0x04 <= key <= 0x1D {
        ((key - 0x04 + 0x61) as u8) as char
    } else if 0x1E <= key <= 0x27 {
        ((key - 0x1E + 0x31) as u8) as char
    } else if key == 0x28 {
        '\n'
    } else if key == 0x29 {
        '\x1B'
    } else if key == 0x2A {
        '\x08'
    } else if key == 0x2B {
        '\t'
    } else if key == 0x2C {
        ' '
    } else if key == 0x2D {
        '-'
    } else if key == 0x2E {
        '='
    } else if key == 0x2F {
        '['
    } else if key == 0x30 {
        ']'
    } else if key == 0x31 {
        '\\'
    } else if key == 0x33 {
        ';'
    } else if key == 0x34 {
        '\''
    } else if key == 0x35 {
        '`'
    } else if key == 0x36 {
        ','
    } else if key == 0x37 {
        '.'
    } else if key == 0x38 {
        '/'
    } else {
        '?'
    }
}

/// The keys that `codes` shows as pressed: every code but zero.
pub open spec fn pressed(codes: Seq<u8>) -> Seq<KeyPress>
    decreases codes.len(),
{
    if codes.len() == 0 {
        Seq::empty()
    } else if codes.last() == 0 {
        pressed(codes.drop_last())
    } else {
        pressed(codes.drop_last()).push(
            KeyPress { code: codes.last(), ascii: ascii_of(codes.last()) },
        )
    }
}

/// What the records of a keyboard's configuration ask of the driver.
#[derive(Clone, Copy, Debug, PartialEq, Eq, Structural)]
pub enum KbdItem {
    /// A configuration descriptor: select the configuration with this value.
    Configure(u8),
    /// An endpoint descriptor with this address byte.
    Endpoint(u8),
    /// A device descriptor, which has no place in a configuration.
    Device,
    /// A record that could not be read.
    Failed(UsbHostError),
}

/// What one record asks of the driver, if anything.
pub open spec fn kbd_item(r: Result<Record, UsbHostError>) -> Seq<KbdItem> {
    match r {
        Ok(Record::Configuration(c)) => seq![KbdItem::Configure(c.value)],
        Ok(Record::Endpoint(e)) => seq![KbdItem::Endpoint(e.b_endpoint_address)],
        Ok(Record::Device(_)) => seq![KbdItem::Device],
        Ok(_) => Seq::empty(),
        Err(e) => seq![KbdItem::Failed(e)],
    }
}

/// What a list of records asks of the driver.
pub open spec fn kbd_plan_of(rs: Seq<Result<Record, UsbHostError>>) -> Seq<KbdItem>
    decreases rs.len(),
{
    if rs.len() == 0 {
        Seq::empty()
    } else {
        kbd_plan_of(rs.drop_last()) + kbd_item(rs.last())
    }
}

/// SET_IDLE with a duration of zero, to the first interface.
pub open spec fn set_idle_request() -> Request {
    Request {
        request_type: RequestType::made(
            RequestTypeDirection::HostToDevice,
            RequestTypeType::Class,
            RequestTypeRecipient::Interface,
        ),
        request: 0x0A,
        value: 0,
        index: 0,
        length: 0,
    }
}

/// Where the configuring of a keyboard stands: which answer it waits for.
#[derive(Clone, Copy, Debug, PartialEq, Eq, Structural)]
pub enum KbdPhase {
    /// The configuration descriptor.
    Configuration,
    /// A Set_Configuration.
    Configure,
    /// The SET_IDLE.
    SetIdle,
}

/// The configuring of a keyboard, in flight.
#[derive(Debug)]
pub struct KbdSetup {
    device: DeviceHandle,
    phase: KbdPhase,
    items: Vec<KbdItem>,
    cursor: usize,
    endpoint: Option<u8>,
}

/// The state of a [`KbdSetup`] as a plain value.
pub struct KbdSetupState {
    pub device: DeviceHandle,
    pub phase: KbdPhase,
    /// What the configuration asks for.
    pub items: Seq<KbdItem>,
    /// How much of that has been done.
    pub cursor: int,
    /// The address byte of the first IN endpoint found so far.
    pub endpoint: Option<u8>,
}

/// What the driver asks for next.
#[derive(Clone, Copy, Debug, PartialEq, Eq)]
pub enum KbdSetupStep {
    /// Run this control transfer with a buffer of `capacity` zeroed bytes.
    Transfer { request: Request, capacity: usize },
    /// The keyboard is configured, or could not be.
    Finished(Result<HidKbd, UsbHostError>),
}

impl KbdSetupState {
    /// Goes on through what the configuration asks for. A configuration is
    /// selected by a Set_Configuration; the first IN endpoint is noted; a
    /// device descriptor is an invalid response; a record that could not be
    /// read ends the configuring with its error. At the end comes SET_IDLE.
    pub open spec fn scan(self) -> (KbdSetupState, KbdSetupStep)
        decreases self.items.len() - self.cursor,
    {
        if self.cursor < 0 || self.cursor >= self.items.len() {
            (
                KbdSetupState { phase: KbdPhase::SetIdle, ..self },
                KbdSetupStep::Transfer { request: set_idle_request(), capacity: 0 },
            )
        } else {
            match self.items[self.cursor] {
                KbdItem::Configure(v) => (
                    KbdSetupState { phase: KbdPhase::Configure, cursor: self.cursor + 1, ..self },
                    KbdSetupStep::Transfer {
                        request: Request::made(
                            RequestTypeDirection::HostToDevice,
                            RequestTypeType::Standard,
                            RequestTypeRecipient::Device,
                            StandardDeviceRequest::SetConfiguration,
                            v as u16,
                            0,
                            0,
                        ),
                        capacity: 0,
                    },
                ),
                KbdItem::Endpoint(b) => (KbdSetupState {
                    endpoint: if self.endpoint is None && b & 0x80 != 0 {
                        Some(b)
                    } else {
                        self.endpoint
                    },
                    cursor: self.cursor + 1,
                    ..self
                }).scan(),
                KbdItem::Device => (self, KbdSetupStep::Finished(Err(UsbHostError::InvalidResponse))),
                KbdItem::Failed(e) => (self, KbdSetupStep::Finished(Err(e))),
            }
        }
    }

    /// The keyboard that comes out, if an IN endpoint was found.
    pub open spec fn keyboard(self) -> Result<HidKbd, UsbHostError> {
        match self.endpoint {
            Some(b) => Ok(
                HidKbd {
                    device: self.device,
                    interrupt_channel: Some(
                        InterruptChannel::made(
                            self.device,
                            EndpointAddress::of_byte(b),
                            DataTog::DATA0,
                        ),
                    ),
                },
            ),
            None => Err(UsbHostError::InvalidResponse),
        }
    }

    /// The state after the transfer asked for ended in `result`, with `data`
    /// in its buffer, and what is asked for next. A transfer that fails ends
    /// the configuring with its error.
    pub open spec fn after(self, result: Result<usize, UsbHostError>, data: Seq<u8>) -> (
        KbdSetupState,
        KbdSetupStep,
    ) {
        match result {
            Err(e) => (self, KbdSetupStep::Finished(Err(e))),
            Ok(len) => match self.phase {
                KbdPhase::Configuration => match configuration_fault(
                    data.subrange(0, len as int),
                    data.len() as int,
                ) {
                    Some(e) => (self, KbdSetupStep::Finished(Err(e))),
                    None => (KbdSetupState {
                        items: kbd_plan_of(records(data.subrange(0, len as int))),
                        cursor: 0,
                        ..self
                    }).scan(),
                },
                KbdPhase::Configure => self.scan(),
                KbdPhase::SetIdle => (self, KbdSetupStep::Finished(self.keyboard())),
            },
        }
    }
}

impl View for KbdSetup {
    type V = KbdSetupState;

    closed spec fn view(&self) -> KbdSetupState {
        KbdSetupState {
            device: self.device,
            phase: self.phase,
            items: self.items@,
            cursor: self.cursor as int,
            endpoint: self.endpoint,
        }
    }
}

fn kbd_plan(
    found: &Vec<Result<Descriptor<'_>, UsbHostError>>,
    Ghost(rs): Ghost<Seq<Result<Record, UsbHostError>>>,
) -> (items: Vec<KbdItem>)
    requires
        found@.len() == rs.len(),
        forall|k: int| 0 <= k < found@.len() ==> item_view(#[trigger] found@[k]) == rs[k],
    ensures
        items@ == kbd_plan_of(rs),
{
    let mut items: Vec<KbdItem> = Vec::new();
    let mut i: usize = 0;
    assert(rs.take(0) =~= Seq::empty());
    while i < found.len()
        invariant
            i <= found@.len(),
            found@.len() == rs.len(),
            forall|k: int| 0 <= k < found@.len() ==> item_view(#[trigger] found@[k]) == rs[k],
            items@ == kbd_plan_of(rs.take(i as int)),
        decreases found.len() - i,
    {
        proof {
            assert(rs.take(i + 1).drop_last() =~= rs.take(i as int));
            assert(rs.take(i + 1).last() == rs[i as int]);
            assert(item_view(found@[i as int]) == rs[i as int]);
        }
        match &found[i] {
            Ok(Descriptor::Configuration(c)) => items.push(KbdItem::Configure(c.value)),
            Ok(Descriptor::Endpoint(e)) => items.push(KbdItem::Endpoint(e.b_endpoint_address)),
            Ok(Descriptor::Device(_)) => items.push(KbdItem::Device),
            Ok(_) => {
                assert(items@ + Seq::<KbdItem>::empty() =~= items@);
            },
            Err(e) => items.push(KbdItem::Failed(*e)),
        }
        i += 1;
    }
    assert(rs.take(i as int) =~= rs);
    items
}

impl KbdSetup {
    /// The cursor stays within the plan.
    pub open spec fn wf(&self) -> bool {
        0 <= self@.cursor <= self@.items.len()
    }

    fn scan(&mut self) -> (r: KbdSetupStep)
        requires
            old(self).wf(),
        ensures
            (final(self)@, r) == old(self)@.scan(),
            final(self).wf(),
    {
        while self.cursor < self.items.len()
            invariant
                self.wf(),
                self@.scan() == old(self)@.scan(),
            decreases self.items.len() - self.cursor,
        {
            match self.items[self.cursor] {
                KbdItem::Configure(v) => {
                    self.phase = KbdPhase::Configure;
                    self.cursor = self.cursor + 1;
                    return KbdSetupStep::Transfer {
                        request: Request::set_configuration(v),
                        capacity: 0,
                    };
                },
                KbdItem::Endpoint(b) => {
                    if self.endpoint.is_none() && b & 0x80 != 0 {
                        self.endpoint = Some(b);
                    }
                    self.cursor = self.cursor + 1;
                },
                KbdItem::Device => {
                    return KbdSetupStep::Finished(Err(UsbHostError::InvalidResponse));
                },
                KbdItem::Failed(e) => {
                    return KbdSetupStep::Finished(Err(e));
                },
            }
        }
        self.phase = KbdPhase::SetIdle;
        let request = Request {
            request_type: RequestType::from_parts(
                RequestTypeDirection::HostToDevice,
                RequestTypeType::Class,
                RequestTypeRecipient::Interface,
            ),
            request: 0x0A,
            value: 0,
            index: 0,
            length: 0,
        };
        KbdSetupStep::Transfer { request, capacity: 0 }
    }

    /// Takes the result of the transfer asked for, and the buffer it filled,
    /// and says what is asked for next.
    pub fn step(&mut self, result: Result<usize, UsbHostError>, data: &[u8]) -> (r: KbdSetupStep)
        requires
            old(self).wf(),
            result matches Ok(len) ==> (old(self)@.phase is Configuration ==> len <= data@.len()),
        ensures
            (final(self)@, r) == old(self)@.after(result, data@),
            final(self).wf(),
    {
        let len = match result {
            Err(e) => {
                return KbdSetupStep::Finished(Err(e));
            },
            Ok(len) => len,
        };
        match self.phase {
            KbdPhase::Configuration => match get_configuration_descriptor(data, len) {
                Err(e) => KbdSetupStep::Finished(Err(e)),
                Ok(reader) => {
                    assert(reader.rest() =~= data@.subrange(0, len as int));
                    let found = reader.collect();
                    self.items = kbd_plan(&found, Ghost(records(data@.subrange(0, len as int))));
                    self.cursor = 0;
                    self.scan()
                },
            },
            KbdPhase::Configure => self.scan(),
            KbdPhase::SetIdle => match self.endpoint {
                Some(b) => KbdSetupStep::Finished(
                    Ok(
                        HidKbd {
                            device: self.device,
                            interrupt_channel: Some(
                                InterruptChannel::new(self.device, EndpointAddress::from_byte(b)),
                            ),
                        },
                    ),
                ),
                None => KbdSetupStep::Finished(Err(UsbHostError::InvalidResponse)),
            },
        }
    }
}

/// The reading of reports, in flight.
#[derive(Clone, Copy, Debug, PartialEq, Eq)]
pub struct KbdRun {
    pub interrupt_channel: InterruptChannel,
    /// The last report that was taken.
    pub prev_report: [u8; 8],
}

/// What the driver does after a poll.
#[derive(Debug)]
pub enum KbdStep {
    /// Wait, and poll again; with a report, if a new one came in.
    Continue(Option<KeyboardReport>),
    /// The driver has come to its end with this error.
    Stop(UsbHostError),
}

impl HidKbd {
    /// The character of a key.
    pub fn hid_key_to_ascii(key: u8) -> (c: char)
        ensures
            c == ascii_of(key),
    {
        if 0x04 <= key && key <= 0x1D {
            (key - 0x04 + 0x61) as char
        } else if 0x1E <= key && key <= 0x27 {
            (key - 0x1E + 0x31) as char
        } else if key == 0x28 {
            '\n'
        } else if key == 0x29 {
            '\x1B'
        } else if key == 0x2A {
            '\x08'
        } else if key == 0x2B {
            '\t'
        } else if key == 0x2C {
            ' '
        } else if key == 0x2D {
            '-'
        } else if key == 0x2E {
            '='
        } else if key == 0x2F {
            '['
        } else if key == 0x30 {
            ']'
        } else if key == 0x31 {
            '\\'
        } else if key == 0x33 {
            ';'
        } else if key == 0x34 {
            '\''
        } else if key == 0x35 {
            '`'
        } else if key == 0x36 {
            ','
        } else if key == 0x37 {
            '.'
        } else if key == 0x38 {
            '/'
        } else {
            '?'
        }
    }

    /// Reads a report: byte 0 holds the modifiers, bytes 2 to 7 the codes of
    /// up to six keys.
    pub fn process_keyboard_report(report: &[u8]) -> (r: KeyboardReport)
        requires
            report@.len() >= 8,
        ensures
            r.modifiers == report@[0],
            r.keys@ == pressed(report@.subrange(2, 8)),
    {
        let mut keys: Vec<KeyPress> = Vec::new();
        let ghost codes = report@.subrange(2, 8);
        let mut i: usize = 2;
        assert(codes.take(0) =~= Seq::empty());
        while i < 8
            invariant
                2 <= i <= 8,
                report@.len() >= 8,
                codes == report@.subrange(2, 8),
                keys@ == pressed(codes.take(i - 2)),
            decreases 8 - i,
        {
            proof {
                assert(codes.take(i - 1).drop_last() =~= codes.take(i - 2));
                assert(codes.take(i - 1).last() == report@[i as int]);
            }
            let code = report[i];
            if code != 0 {
                keys.push(KeyPress { code, ascii: Self::hid_key_to_ascii(code) });
            }
            i += 1;
        }
        assert(codes.take(6) =~= codes);
        KeyboardReport { modifiers: report[0], keys }
    }

    /// Starts to attach a keyboard. A device that declares a class of its
    /// own is none. Otherwise the first request reads the configuration
    /// descriptor into a buffer of 255 bytes.
    pub fn try_attach(device: DeviceHandle, desc: DeviceDescriptor) -> (r: Result<
        (KbdSetup, KbdSetupStep),
        UsbHostError,
    >)
        ensures
            desc.device_class != 0 ==> r == Err::<(KbdSetup, KbdSetupStep), UsbHostError>(
                UsbHostError::UnexpectedDevice,
            ),
            desc.device_class == 0 ==> (r matches Ok((setup, step)) && setup.wf() && setup@ == (
            KbdSetupState {
                device,
                phase: KbdPhase::Configuration,
                items: Seq::empty(),
                cursor: 0,
                endpoint: None,
            }) && step == (KbdSetupStep::Transfer {
                request: configuration_request(),
                capacity: CONFIGURATION_BUFFER_LEN,
            })),
    {
        if desc.device_class != 0 {
            return Err(UsbHostError::UnexpectedDevice);
        }
        let setup = KbdSetup {
            device,
            phase: KbdPhase::Configuration,
            items: Vec::new(),
            cursor: 0,
            endpoint: None,
        };
        let request = Request::get_configuration_descriptor(0, CONFIGURATION_BUFFER_LEN as u16);
        Ok((setup, KbdSetupStep::Transfer { request, capacity: CONFIGURATION_BUFFER_LEN }))
    }

    /// Starts to read reports. A keyboard without an interrupt channel is
    /// in an invalid state.
    pub fn run(self) -> (r: Result<KbdRun, UsbHostError>)
        ensures
            match self.interrupt_channel {
                Some(c) => r matches Ok(run) && run.interrupt_channel == c && run.prev_report@
                    == Seq::new(8, |i: int| 0u8),
                None => r == Err::<KbdRun, UsbHostError>(UsbHostError::InvalidState),
            },
    {
        match self.interrupt_channel {
            Some(interrupt_channel) => {
                let run = KbdRun { interrupt_channel, prev_report: [0u8; 8] };
                assert(run.prev_report@ =~= Seq::new(8, |i: int| 0u8));
                Ok(run)
            },
            None => Err(UsbHostError::InvalidState),
        }
    }
}

impl KbdRun {
    /// Takes the result of an interrupt transfer on the keyboard's channel,
    /// and the buffer it filled.
    ///
    /// A report that has bytes and differs from the last one taken is read
    /// and becomes the last one taken. A NAK means that nothing is new. Any
    /// other error ends the driver.
    pub fn on_transfer(&mut self, result: Result<usize, UsbHostError>, buf: &[u8; 8]) -> (r: KbdStep)
        ensures
            final(self).interrupt_channel == old(self).interrupt_channel,
            match result {
                Ok(len) => if len > 0 && buf@ != old(self).prev_report@ {
                    r matches KbdStep::Continue(Some(report)) && report.modifiers == buf@[0]
                        && report.keys@ == pressed(buf@.subrange(2, 8)) && final(self).prev_report@
                        == buf@
                } else {
                    r matches KbdStep::Continue(None) && final(self).prev_report == old(self).prev_report
                },
                Err(UsbHostError::NAK) => r matches KbdStep::Continue(None) && final(self).prev_report
                    == old(self).prev_report,
                Err(e) => r matches KbdStep::Stop(x) && x == e && final(self).prev_report == old(self).prev_report,
            },
    {
        match result {
            Ok(len) => {
                if len > 0 && !same_report(buf, &self.prev_report) {
                    let report = HidKbd::process_keyboard_report(buf.as_slice());
                    self.prev_report = *buf;
                    KbdStep::Continue(Some(report))
                } else {
                    KbdStep::Continue(None)
                }
            },
            Err(UsbHostError::NAK) => KbdStep::Continue(None),
            Err(e) => KbdStep::Stop(e),
        }
    }
}

fn same_report(a: &[u8; 8], b: &[u8; 8]) -> (r: bool)
    ensures
        r == (a@ == b@),
{
    let mut i: usize = 0;
    while i < 8
        invariant
            i <= 8,
            forall|k: int| 0 <= k < i ==> a@[k] == b@[k],
        decreases 8 - i,
    {
        if a[i] != b[i] {
            return false;
        }
        i += 1;
    }
    assert(a@ =~= b@);
    true
}

} // verus!
