//! The firmware-update class driver: recognising a DFU device, and the
//! sequence of requests of a download.

use crate::descriptor::{
    item_view, le16, read_le16, records, Descriptor, DescriptorIterator, DeviceDescriptor, Record,
};
use crate::device_addr::DeviceHandle;
use crate::errors::UsbHostError;
use crate::request::{
    Request, RequestType, RequestTypeDirection, RequestTypeRecipient, RequestTypeType,
};
use crate::types::Bcd16;
use usb_dfu_target::consts::{DfuRequest, DFU_PROTOCOL_RT, USB_CLASS_APPN_SPEC};
use vstd::prelude::*;

verus! {

/// `usb_dfu_target::consts::USB_CLASS_APPN_SPEC`: the application-specific
/// interface class, 0xFE.
#[verifier::external_body]
fn dfu_interface_class() -> (c: u8)
    ensures
        c == 0xFE,
{
    USB_CLASS_APPN_SPEC
}

/// `usb_dfu_target::consts::DFU_PROTOCOL_RT`: the code that the driver
/// looks for in the subclass of an interface, 0x01.
#[verifier::external_body]
fn dfu_runtime_code() -> (c: u8)
    ensures
        c == 0x01,
{
    DFU_PROTOCOL_RT
}

/// `usb_dfu_target::consts::DfuRequest::Dnload` as a request code: 1.
#[verifier::external_body]
fn dfu_dnload_code() -> (c: u8)
    ensures
        c == 1,
{
    DfuRequest::Dnload as u8
}

/// The descriptor type of the DFU functional descriptor.
pub const DFU_FUNCTIONAL_TYPE: u8 = 0x21;

/// How often the download of one block is tried.
pub const DOWNLOAD_ATTEMPTS: u8 = 3;

/// What the user of the driver asks of it.
#[derive(Clone, Copy, Debug, PartialEq, Eq)]
pub enum DFUOperation {
    StartDownload,
    Bytes([u8; 8]),
    Manifest,
    Detach,
}

/// The attributes of a DFU device.
#[derive(Clone, Copy, Debug, PartialEq, Eq, Structural)]
pub struct DFUCapabilities(pub u8);

impl DFUCapabilities {
    pub fn default() -> (c: DFUCapabilities)
        ensures
            c.0 == 0,
    {
        DFUCapabilities(0)
    }

    /// Bit 0.
    pub fn can_download(&self) -> (r: bool)
        ensures
            r == (self.0 & 0b00000001 != 0),
    {
        self.0 & 0b00000001 != 0
    }

    /// Bit 1.
    pub fn can_upload(&self) -> (r: bool)
        ensures
            r == (self.0 & 0b00000010 != 0),
    {
        self.0 & 0b00000010 != 0
    }

    /// Bit 2.
    pub fn can_manifest(&self) -> (r: bool)
        ensures
            r == (self.0 & 0b00000100 != 0),
    {
        self.0 & 0b00000100 != 0
    }

    /// Bit 3.
    pub fn can_detach(&self) -> (r: bool)
        ensures
            r == (self.0 & 0b00001000 != 0),
    {
        self.0 & 0b00001000 != 0
    }
}

/// What the functional descriptor says of a DFU device.
#[derive(Clone, Copy, Debug, PartialEq, Eq, Structural)]
pub struct DFUInfo {
    pub capabilities: DFUCapabilities,
    /// In milliseconds.
    pub detach_timeout: u16,
    /// In bytes.
    pub transfer_size: u16,
    pub version: Bcd16,
}

impl DFUInfo {
    /// What the first nine bytes of a functional descriptor say.
    pub open spec fn of_bytes(data: Seq<u8>) -> DFUInfo {
        DFUInfo {
            capabilities: DFUCapabilities(data[2]),
            detach_timeout: le16(data, 3),
            transfer_size: le16(data, 5),
            version: Bcd16(le16(data, 7)),
        }
    }
}

/// What the records read so far say of the device.
pub struct DfuScan {
    /// Whether an interface of the DFU class was among them.
    pub is_dfu: bool,
    /// The last functional descriptor among them.
    pub info: Option<DFUInfo>,
}

/// What is known after one more record. An interface of class 0xFE and
/// subclass 0x01 marks the device as a DFU device. A record of type 0x21
/// that is at least nine bytes long is the functional descriptor.
pub open spec fn dfu_note(acc: DfuScan, r: Record) -> DfuScan {
    match r {
        Record::Interface(i) => if i.b_interface_class == 0xFE && i.b_interface_sub_class == 0x01 {
            DfuScan { is_dfu: true, ..acc }
        } else {
            acc
        },
        Record::Unknown { descriptor_type, length, data } => if descriptor_type == 0x21 && length >= 9
            && data.len() >= 9 {
            DfuScan { info: Some(DFUInfo::of_bytes(data)), ..acc }
        } else {
            acc
        },
        _ => acc,
    }
}

/// What a list of records says of the device, or the error of the first
/// record that is bad: one that could not be read, or a device descriptor,
/// which has no place in a configuration.
pub open spec fn dfu_scan(rs: Seq<Result<Record, UsbHostError>>) -> Result<DfuScan, UsbHostError>
    decreases rs.len(),
{
    if rs.len() == 0 {
        Ok(DfuScan { is_dfu: false, info: None })
    } else {
        match dfu_scan(rs.drop_last()) {
            Err(e) => Err(e),
            Ok(acc) => match rs.last() {
                Err(e) => Err(e),
                Ok(Record::Device(_)) => Err(UsbHostError::InvalidResponse),
                Ok(r) => Ok(dfu_note(acc, r)),
            },
        }
    }
}

/// A DFU device.
#[derive(Clone, Copy, Debug, PartialEq, Eq)]
pub struct UsbDfu {
    pub device: DeviceHandle,
    pub info: DFUInfo,
}

/// A download in flight.
#[derive(Clone, Copy, Debug, PartialEq, Eq)]
pub struct DfuRun {
    pub device: DeviceHandle,
    /// The number of the next block.
    pub block: u16,
    /// How often the block under way may still be tried, the try under way
    /// included; zero when no block is under way.
    pub attempts_left: u8,
    /// Whether the answer to the first request, which reads the state of the
    /// device, is still awaited.
    pub starting: bool,
    /// The block under way.
    pub bytes: [u8; 8],
}

/// What the driver does next.
#[derive(Clone, Copy, Debug, PartialEq, Eq)]
pub enum DfuStep {
    /// Await the next operation.
    Idle,
    /// Run this control transfer; `payload` is the data stage of a
    /// download, of which there is none when the request reads the state.
    Transfer { request: Request, payload: Option<[u8; 8]> },
    /// The driver has come to its end.
    Finished(Result<(), UsbHostError>),
}

/// DFU_GETSTATE: one byte from the interface.
pub open spec fn get_state_request() -> Request {
    Request {
        request_type: RequestType::made(
            RequestTypeDirection::DeviceToHost,
            RequestTypeType::Class,
            RequestTypeRecipient::Interface,
        ),
        request: 0x05,
        value: 0,
        index: 0,
        length: 1,
    }
}

/// DFU_DNLOAD of block `block`: eight bytes to the interface.
pub open spec fn download_request(block: u16) -> Request {
    Request {
        request_type: RequestType::made(
            RequestTypeDirection::HostToDevice,
            RequestTypeType::Class,
            RequestTypeRecipient::Interface,
        ),
        request: 1,
        value: block,
        index: 0,
        length: 8,
    }
}

impl UsbDfu {
    /// Decides from its configuration, as it was read into `configuration`,
    /// whether a device is a DFU device. A device without a DFU interface is
    /// not; one with such an interface but without a functional descriptor
    /// is in an invalid state.
    pub fn try_attach(device: DeviceHandle, _desc: DeviceDescriptor, configuration: &[u8]) -> (r: Result<
        UsbDfu,
        UsbHostError,
    >)
        ensures
            r == Self::attached(device, records(configuration@)),
    {
        let reader = DescriptorIterator::new(configuration);
        assert(reader.rest() =~= configuration@);
        let found = reader.collect();
        Self::scan(device, &found, Ghost(records(configuration@)))
    }

    /// What the records of a configuration make of the device.
    pub open spec fn attached(device: DeviceHandle, rs: Seq<Result<Record, UsbHostError>>) -> Result<
        UsbDfu,
        UsbHostError,
    > {
        match dfu_scan(rs) {
            Err(e) => Err(e),
            Ok(scan) => if !scan.is_dfu {
                Err(UsbHostError::UnexpectedDevice)
            } else if scan.info is None {
                Err(UsbHostError::InvalidState)
            } else {
                Ok(UsbDfu { device, info: scan.info->Some_0 })
            },
        }
    }

    fn scan(
        device: DeviceHandle,
        found: &Vec<Result<Descriptor<'_>, UsbHostError>>,
        Ghost(rs): Ghost<Seq<Result<Record, UsbHostError>>>,
    ) -> (r: Result<UsbDfu, UsbHostError>)
        requires
            found@.len() == rs.len(),
            forall|k: int| 0 <= k < found@.len() ==> item_view(#[trigger] found@[k]) == rs[k],
        ensures
            r == Self::attached(device, rs),
    {
        let mut is_dfu = false;
        let mut dfu_info: Option<DFUInfo> = None;
        let mut i: usize = 0;
        assert(rs.take(0) =~= Seq::empty());
        while i < found.len()
            invariant
                i <= found@.len(),
                found@.len() == rs.len(),
                forall|k: int| 0 <= k < found@.len() ==> item_view(#[trigger] found@[k]) == rs[k],
                dfu_scan(rs.take(i as int)) matches Ok(scan) && scan.is_dfu == is_dfu && scan.info
                    == dfu_info,
            decreases found.len() - i,
        {
            proof {
                assert(rs.take(i + 1).drop_last() =~= rs.take(i as int));
                assert(rs.take(i + 1).last() == rs[i as int]);
                assert(item_view(found@[i as int]) == rs[i as int]);
            }
            match &found[i] {
                Err(e) => {
                    proof {
                        lemma_dfu_scan_fails(rs, i as int);
                    }
                    return Err(*e);
                },
                Ok(Descriptor::Device(_)) => {
                    proof {
                        lemma_dfu_scan_fails(rs, i as int);
                    }
                    return Err(UsbHostError::InvalidResponse);
                },
                Ok(Descriptor::Interface(interface)) => {
                    if interface.b_interface_class == dfu_interface_class()
                        && interface.b_interface_sub_class == dfu_runtime_code() {
                        is_dfu = true;
                    }
                },
                Ok(Descriptor::UnknownDescriptor { descriptor_type, length, data }) => {
                    if *descriptor_type == DFU_FUNCTIONAL_TYPE && *length >= 9 && data.len() >= 9 {
                        dfu_info = Some(
                            DFUInfo {
                                capabilities: DFUCapabilities(data[2]),
                                detach_timeout: read_le16(data, 3),
                                transfer_size: read_le16(data, 5),
                                version: Bcd16(read_le16(data, 7)),
                            },
                        );
                    }
                },
                Ok(_) => {},
            }
            i += 1;
        }
        assert(rs.take(i as int) =~= rs);
        if is_dfu {
            match dfu_info {
                Some(info) => Ok(UsbDfu { device, info }),
                None => Err(UsbHostError::InvalidState),
            }
        } else {
            Err(UsbHostError::UnexpectedDevice)
        }
    }

    /// Starts the driver: the first request reads the state of the device.
    pub fn run(self) -> (r: (DfuRun, DfuStep))
        ensures
            r.0.device == self.device,
            r.0.block == 0,
            r.0.attempts_left == 0,
            r.0.starting,
            r.0.bytes@ == Seq::new(8, |i: int| 0u8),
            r.1 == (DfuStep::Transfer { request: get_state_request(), payload: None }),
    {
        let request = Request {
            request_type: RequestType::from_parts(
                RequestTypeDirection::DeviceToHost,
                RequestTypeType::Class,
                RequestTypeRecipient::Interface,
            ),
            request: 0x05,
            value: 0,
            index: 0,
            length: 1,
        };
        (
            DfuRun { device: self.device, block: 0, attempts_left: 0, starting: true, bytes: [0u8; 8] },
            DfuStep::Transfer { request, payload: None },
        )
    }
}

/// Once a record is bad, the list is bad whatever follows.
proof fn lemma_dfu_scan_fails(rs: Seq<Result<Record, UsbHostError>>, i: int)
    requires
        0 <= i < rs.len(),
        dfu_scan(rs.take(i)) is Ok,
        rs[i] is Err || rs[i] matches Ok(Record::Device(_)),
    ensures
        dfu_scan(rs) == (match rs[i] {
            Err(e) => Err::<DfuScan, UsbHostError>(e),
            Ok(_) => Err(UsbHostError::InvalidResponse),
        }),
    decreases rs.len(),
{
    if i == rs.len() - 1 {
        assert(rs.drop_last() =~= rs.take(i));
    } else {
        assert(rs.drop_last().take(i) =~= rs.take(i));
        lemma_dfu_scan_fails(rs.drop_last(), i);
    }
}

impl DfuRun {
    /// The download request for the block under way.
    pub open spec fn download(self) -> DfuStep {
        DfuStep::Transfer { request: download_request(self.block), payload: Some(self.bytes) }
    }

    /// The driver after `op`, and what it does next: the start of a
    /// download sets the block counter to zero; a block is sent, with three
    /// tries ahead; a detach ends the driver.
    pub open spec fn after_operation(self, op: DFUOperation) -> (DfuRun, DfuStep) {
        match op {
            DFUOperation::StartDownload => (DfuRun { block: 0, ..self }, DfuStep::Idle),
            DFUOperation::Bytes(bytes) => {
                let run = DfuRun { attempts_left: DOWNLOAD_ATTEMPTS, bytes, ..self };
                (run, run.download())
            },
            DFUOperation::Manifest => (self, DfuStep::Idle),
            DFUOperation::Detach => (self, DfuStep::Finished(Ok(()))),
        }
    }

    /// The driver after a transfer ended in `result`, and what it does
    /// next. The first transfer has to succeed. A block that went through
    /// advances the block counter, which wraps around; one that failed is
    /// tried again until its three tries are spent, and is then given up
    /// without an error.
    pub open spec fn after_transfer(self, result: Result<usize, UsbHostError>) -> (DfuRun, DfuStep) {
        if self.starting {
            match result {
                Err(e) => (self, DfuStep::Finished(Err(e))),
                Ok(_) => (DfuRun { starting: false, ..self }, DfuStep::Idle),
            }
        } else {
            match result {
                Ok(_) => (
                    DfuRun {
                        block: if self.block == u16::MAX {
                            0
                        } else {
                            (self.block + 1) as u16
                        },
                        attempts_left: 0,
                        ..self
                    },
                    DfuStep::Idle,
                ),
                Err(_) => if self.attempts_left > 1 {
                    let run = DfuRun { attempts_left: (self.attempts_left - 1) as u8, ..self };
                    (run, run.download())
                } else {
                    (DfuRun { attempts_left: 0, ..self }, DfuStep::Idle)
                },
            }
        }
    }

    fn send(&self) -> (r: DfuStep)
        ensures
            r == self.download(),
    {
        let request = Request {
            request_type: RequestType::from_parts(
                RequestTypeDirection::HostToDevice,
                RequestTypeType::Class,
                RequestTypeRecipient::Interface,
            ),
            request: dfu_dnload_code(),
            value: self.block,
            index: 0,
            length: 8,
        };
        DfuStep::Transfer { request, payload: Some(self.bytes) }
    }

    /// Takes an operation from the user.
    pub fn on_operation(&mut self, op: DFUOperation) -> (r: DfuStep)
        ensures
            (*final(self), r) == old(self).after_operation(op),
    {
        match op {
            DFUOperation::StartDownload => {
                self.block = 0;
                DfuStep::Idle
            },
            DFUOperation::Bytes(bytes) => {
                self.attempts_left = DOWNLOAD_ATTEMPTS;
                self.bytes = bytes;
                self.send()
            },
            DFUOperation::Manifest => DfuStep::Idle,
            DFUOperation::Detach => DfuStep::Finished(Ok(())),
        }
    }

    /// Takes the result of the transfer asked for.
    pub fn on_transfer(&mut self, result: Result<usize, UsbHostError>) -> (r: DfuStep)
        ensures
            (*final(self), r) == old(self).after_transfer(result),
    {
        if self.starting {
            match result {
                Err(e) => DfuStep::Finished(Err(e)),
                Ok(_) => {
                    self.starting = false;
                    DfuStep::Idle
                },
            }
        } else {
            match result {
                Ok(_) => {
                    self.block = self.block.wrapping_add(1);
                    self.attempts_left = 0;
                    DfuStep::Idle
                },
                Err(_) => {
                    if self.attempts_left > 1 {
                        self.attempts_left = self.attempts_left - 1;
                        self.send()
                    } else {
                        self.attempts_left = 0;
                        DfuStep::Idle
                    }
                },
            }
        }
    }
}

} // verus!
