//! Class drivers, and what they share.

use crate::descriptor::{le16, parse_failure, Descriptor, DescriptorIterator};
use crate::errors::UsbHostError;
use crate::futures::{
    is_first_in, none_in, occupied, PollNext, PollRound, SlotState, StaticUnpinPoller,
};
use vstd::prelude::*;
use vstd::slice::slice_subrange;

pub mod dfu;
pub mod hub;
pub mod kbd;

verus! {

/// The size of the buffer that the drivers read a configuration into.
pub const CONFIGURATION_BUFFER_LEN: usize = 255;

/// What is wrong with the `s.len()` bytes that came back for a request of
/// the configuration descriptor into a buffer of `capacity` bytes, if
/// anything is.
///
/// The answer has to start with a configuration descriptor that parses. If
/// that descriptor announces a total length other than what came back, and
/// more than the buffer holds, the buffer was too small.
pub open spec fn configuration_fault(s: Seq<u8>, capacity: int) -> Option<UsbHostError> {
    if s.len() == 0 {
        Some(UsbHostError::InvalidResponse)
    } else {
        match parse_failure(s) {
            Some(p) => Some(UsbHostError::ParsingError(p)),
            None => if s[1] != 2 {
                Some(UsbHostError::InvalidResponse)
            } else if le16(s, 2) != s.len() && capacity < le16(s, 2) {
                Some(UsbHostError::BufferOverflow)
            } else {
                None
            },
        }
    }
}

/// Checks the answer to a request of the configuration descriptor, of which
/// `len` bytes came back into `buf`, and hands out a reader of its records.
pub fn get_configuration_descriptor<'a>(buf: &'a [u8], len: usize) -> (r: Result<
    DescriptorIterator<'a>,
    UsbHostError,
>)
    requires
        len <= buf@.len(),
    ensures
        match r {
            Ok(it) => configuration_fault(buf@.subrange(0, len as int), buf@.len() as int) is None
                && it.bytes() == buf@.subrange(0, len as int) && it.position() == 0,
            Err(e) => configuration_fault(buf@.subrange(0, len as int), buf@.len() as int) == Some(e),
        },
{
    let answer = slice_subrange(buf, 0, len);
    let mut probe = DescriptorIterator::new(answer);
    assert(probe.rest() =~= answer@);
    match probe.next() {
        Some(Ok(Descriptor::Configuration(c))) => {
            if c.total_length as usize == len {
                Ok(DescriptorIterator::new(answer))
            } else if buf.len() < c.total_length as usize {
                Err(UsbHostError::BufferOverflow)
            } else {
                Ok(DescriptorIterator::new(answer))
            }
        },
        Some(Ok(_)) => Err(UsbHostError::InvalidResponse),
        Some(Err(e)) => Err(e),
        None => Err(UsbHostError::InvalidResponse),
    }
}

/// What the dispatcher waits for.
#[derive(Clone, Copy, Debug, PartialEq, Eq, Structural)]
pub enum DispatcherWait {
    /// A new device: no driver task is running.
    Device,
    /// A new device, or a driver task to complete, whichever is first.
    DeviceOrTask,
}

/// The dispatcher of new devices to driver tasks: one slot per task.
pub struct USBDeviceDispatcher<const NR_DEVICES: usize> {
    poller: StaticUnpinPoller<NR_DEVICES>,
}

impl<const NR_DEVICES: usize> USBDeviceDispatcher<NR_DEVICES> {
    /// The states of the task slots.
    pub closed spec fn slots(&self) -> Seq<SlotState> {
        self.poller@
    }

    /// A dispatcher without tasks.
    pub fn new() -> (d: Self)
        ensures
            d.slots().len() == NR_DEVICES,
            forall|i: int| 0 <= i < NR_DEVICES ==> d.slots()[i] is Empty,
    {
        USBDeviceDispatcher { poller: StaticUnpinPoller::new() }
    }

    /// The state of the task slot at `index`.
    pub fn slot(&self, index: usize) -> (s: SlotState)
        requires
            index < NR_DEVICES,
        ensures
            s == self.slots()[index as int],
    {
        self.poller.slot(index)
    }

    /// Says what the dispatcher waits for next.
    pub fn run(&self) -> (w: DispatcherWait)
        ensures
            w == (if occupied(self.slots()) == 0 {
                DispatcherWait::Device
            } else {
                DispatcherWait::DeviceOrTask
            }),
    {
        if self.poller.is_empty() {
            DispatcherWait::Device
        } else {
            DispatcherWait::DeviceOrTask
        }
    }

    /// Takes a new device for which the class driver has been tried:
    /// `attached` says whether the driver took it. A device that the driver
    /// took gets the lowest empty slot for its task; if there is none, or
    /// if the driver did not take it, the device is turned down.
    pub fn insert_new_device(&mut self, attached: bool) -> (slot: Option<usize>)
        ensures
            match slot {
                Some(i) => attached && is_first_in(old(self).slots(), SlotState::Empty, 0, i as int)
                    && final(self).slots() == old(self).slots().update(i as int, SlotState::Occupied),
                None => (!attached || none_in(old(self).slots(), SlotState::Empty, 0)) && final(self).slots() == old(self).slots(),
            },
    {
        if !attached {
            return None;
        }
        match self.poller.insert() {
            Ok(i) => Some(i),
            Err(_) => None,
        }
    }

    /// One step of a round of polling the driver tasks, as the poller of
    /// tasks does it: the occupied slots in rising order, the first task
    /// that is ready ends the round and frees its slot.
    pub fn poll_next(&mut self, round: &mut PollRound, ready: Option<bool>) -> (r: PollNext)
        requires
            old(round).next <= NR_DEVICES,
            old(round).polling matches Some(i) ==> i < NR_DEVICES && old(self).slots()[i as int] is Occupied,
            ready is Some ==> old(round).polling is Some,
            old(round).occupied_count <= old(round).next,
        ensures
            final(round).next <= NR_DEVICES,
            final(round).occupied_count <= final(round).next,
            (ready == Some(true)) ==> r == PollNext::Ready(old(round).polling->Some_0) && final(self).slots()
                == old(self).slots().update(old(round).polling->Some_0 as int, SlotState::Empty)
                && final(round).polling is None,
            (ready != Some(true)) ==> final(self).slots() == old(self).slots() && {
                let pending = old(round).pending_found || ready is Some;
                match r {
                    PollNext::PollSlot(i) => is_first_in(
                        old(self).slots(),
                        SlotState::Occupied,
                        old(round).next as int,
                        i as int,
                    ) && *final(round) == (PollRound {
                        next: (i + 1) as usize,
                        polling: Some(i),
                        occupied_count: (old(round).occupied_count + 1) as usize,
                        pending_found: pending,
                    }),
                    PollNext::ReadyNone => none_in(
                        old(self).slots(),
                        SlotState::Occupied,
                        old(round).next as int,
                    ) && old(round).occupied_count == 0,
                    PollNext::Pending => none_in(
                        old(self).slots(),
                        SlotState::Occupied,
                        old(round).next as int,
                    ) && old(round).occupied_count > 0,
                    PollNext::Ready(_) => false,
                }
            },
    {
        self.poller.poll_next(round, ready)
    }
}

} // verus!
