//! Error taxonomy of the host stack.

use vstd::prelude::*;

verus! {

/// Why a descriptor record could not be decoded.
#[derive(Clone, Copy, Debug, PartialEq, Eq, Structural)]
pub enum ParsingError {
    /// A device descriptor was cut short, but far enough in to read the
    /// maximum packet size of endpoint zero.
    IncompleteDeviceDescriptor { max_packet_size: u8 },
    /// The buffer ends in the middle of a record.
    Incomplete,
    /// The length in the record's header is not the one its type calls for.
    InvalidLength,
    /// A record of a type that the parser does not know.
    UnknownType { length: u8, descriptor_type: u8 },
}

/// Every failure a transfer, an enumeration or a class driver can report.
#[derive(Clone, Copy, Debug, PartialEq, Eq, Structural)]
pub enum UsbHostError {
    Unknown,
    /// The device had nothing to say; retryable.
    NAK,
    /// A split transaction has not completed yet; retry the complete-split.
    NYET,
    WrongTog,
    /// The endpoint is halted.
    STALL,
    UnexpectedPID,
    BufferOverflow,
    ParsingError(ParsingError),
    TransferTimeout,
    InvalidState,
    InvalidResponse,
    UnexpectedDevice,
    /// No room left in the supervisor's list of hubs.
    HubCapacity,
    /// The device went away during enumeration.
    Detached,
}

impl ParsingError {
    /// Wraps the parsing failure as a host error.
    pub fn into(self) -> (e: UsbHostError)
        ensures
            e == UsbHostError::ParsingError(self),
    {
        UsbHostError::ParsingError(self)
    }
}

} // verus!
