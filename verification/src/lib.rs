//! Core of an embedded USB 2.0 host stack: address and topology management,
//! the transfer engine's transaction sequencing, descriptor parsing, the hub
//! driver's decisions and the host supervisor's state machine.
//!
//! Everything here is free of I/O: hardware transactions, timers and locks
//! are performed by the caller, which feeds their outcomes back in.

pub mod bitset;
pub mod bus;
pub mod consts;
pub mod descriptor;
pub mod device_addr;
pub mod driver;
pub mod errors;
pub mod futures;
pub mod host;
pub mod hub_list;
pub mod pipe;
pub mod request;
pub mod topology;
pub mod types;
pub mod union_find;

pub use bus::Event;
pub use device_addr::DeviceHandle;
pub use host::{Host, HostAction, HostEvent, HostInternalEvent, HostPhase, HostState};
pub use pipe::TRANSFER_TIMEOUT_MS;
