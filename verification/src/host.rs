//! The host supervisor: what the stack as a whole does with the events of
//! the bus and of its hubs.
//!
//! The supervisor awaits nothing itself. It says what is to be awaited, and
//! takes what came of it.

use crate::bus::Event;
use crate::consts::UsbBaseClass;
use crate::descriptor::DeviceDescriptor;
use crate::device_addr::{
    freed_with, is_first_match, no_match, without_subtree, DeviceDisconnectMask, DeviceHandle,
};
use crate::driver::hub::{Hub, HubEvent};
use crate::errors::UsbHostError;
use crate::hub_list::{
    hubs_get, hubs_len, hubs_new, hubs_of, hubs_set, hubs_swap_remove, hubs_try_push, NR_HUBS,
};
use crate::pipe::USBHostPipe;
use crate::topology::{links_in_table, live_slot};
use crate::types::DevInfo;
use arrayvec::ArrayVec;
use vstd::prelude::*;

verus! {

/// How long the supervisor rests after a pass over all hubs, in
/// milliseconds.
pub const SWEEP_REST_MS: u64 = 100;

/// The four states of the supervisor.
pub enum HostState {
    Disconnected,
    EnumerateRoot,
    DeviceAttached { hubs: Seq<Hub>, enumeration_in_progress: bool },
    Suspended,
}

/// The state of the supervisor without what it carries.
#[derive(Clone, Copy, Debug, PartialEq, Eq, Structural)]
pub enum HostPhase {
    Disconnected,
    EnumerateRoot,
    DeviceAttached,
    Suspended,
}

/// What the supervisor tells its user.
#[derive(Debug)]
pub enum HostEvent {
    /// A device that is no hub has been addressed.
    NewDevice { descriptor: DeviceDescriptor, handle: DeviceHandle },
    /// The devices at these addresses are gone.
    DeviceDetach { mask: DeviceDisconnectMask },
    ControlTransferResponse { result: Result<usize, UsbHostError>, buffer: Vec<u8> },
    InterruptTransferResponse { result: Result<usize, UsbHostError>, buffer: Vec<u8> },
    Suspended,
}

/// What happened while a device was attached.
#[derive(Debug)]
pub enum HostInternalEvent {
    EnumerationBegin,
    EnumerationEnd,
    BusEvent(Event),
    HostEvent(HostEvent),
}

/// What the supervisor's user is to do next.
#[derive(Debug)]
pub enum HostAction {
    /// Await the next event of the bus and hand it to `run_disconnected`.
    AwaitBus,
    /// Enumerate the device on the root port and hand what comes of it to
    /// `enumerate_root`.
    EnumerateRoot,
    /// Await the bus and a sweep over the hubs, whichever is first, and hand
    /// it to `run_device_attached_inner`.
    AwaitBusOrHubs,
    /// Report this event.
    Return(HostEvent),
}

/// Which of the two came first while a device was attached.
#[derive(Clone, Copy, Debug, PartialEq, Eq)]
pub enum Raced {
    /// The sweep over the hubs, with the event of a hub or with none.
    Hubs(Option<HubEvent>),
    /// The bus.
    Bus(Event),
}

/// What the supervisor makes of what came first.
#[derive(Debug)]
pub enum InnerStep {
    /// This is what happened, if anything.
    Done(Option<HostInternalEvent>),
    /// A hub has a device ready on one of its ports: enumerate it, and hand
    /// what comes of it to `device_enumerated`.
    Enumerate(DevInfo),
}

/// A device that has been addressed.
#[derive(Clone, Copy, Debug, PartialEq, Eq)]
pub enum Enumerated {
    /// A device for a class driver.
    Device(DeviceDescriptor, DeviceHandle),
    /// A hub, which the supervisor brings up and keeps.
    Hub(DeviceDescriptor, DeviceHandle),
}

/// One step of a sweep over the hubs.
#[derive(Clone, Copy, Debug, PartialEq, Eq)]
pub enum SweepStep {
    /// Poll the hub at this index.
    Poll(usize),
    /// A hub had this to report; the sweep is over.
    Event(HubEvent),
    /// No hub had anything to report: rest, and end the sweep with nothing.
    Rest { delay_ms: u64 },
}

/// The hubs that are left when those whose address is in `mask` are taken
/// out from index `i` on, each by putting the last hub in its place.
pub open spec fn pruned(hubs: Seq<Hub>, mask: Set<int>, i: int) -> Seq<Hub>
    decreases hubs.len() - i, hubs.len(),
{
    if i < 0 || i >= hubs.len() {
        hubs
    } else if mask.contains(hubs[i].handle().address() as int) {
        pruned(hubs.update(i, hubs.last()).drop_last(), mask, i)
    } else {
        pruned(hubs, mask, i + 1)
    }
}

/// Pruning keeps exactly the hubs whose address is not in the mask: every
/// hub that is left was there before and is not named by the mask, the hubs
/// before `i` stay where they are, and every hub that was there and is not
/// named by the mask is left.
pub proof fn lemma_pruned(hubs: Seq<Hub>, mask: Set<int>, i: int)
    requires
        0 <= i <= hubs.len(),
        forall|k: int| 0 <= k < i ==> !mask.contains((#[trigger] hubs[k]).handle().address() as int),
    ensures
        pruned(hubs, mask, i).len() <= hubs.len(),
        forall|k: int|
            0 <= k < pruned(hubs, mask, i).len() ==> hubs.contains(#[trigger] pruned(hubs, mask, i)[k])
                && !mask.contains(pruned(hubs, mask, i)[k].handle().address() as int),
        forall|k: int|
            0 <= k < hubs.len() && !mask.contains((#[trigger] hubs[k]).handle().address() as int)
                ==> pruned(hubs, mask, i).contains(hubs[k]),
    decreases hubs.len() - i, hubs.len(),
{
    if i < hubs.len() {
        if mask.contains(hubs[i].handle().address() as int) {
            let next = hubs.update(i, hubs.last()).drop_last();
            assert forall|k: int| 0 <= k < i implies !mask.contains(
                (#[trigger] next[k]).handle().address() as int,
            ) by {
                assert(next[k] == hubs[k]);
            }
            lemma_pruned(next, mask, i);
            let out = pruned(next, mask, i);
            assert forall|k: int| 0 <= k < out.len() implies hubs.contains(#[trigger] out[k]) by {
                assert(next.contains(out[k]));
                let j = choose|j: int| 0 <= j < next.len() && next[j] == out[k];
                if j == i {
                    assert(hubs[hubs.len() - 1] == out[k]);
                } else {
                    assert(hubs[j] == out[k]);
                }
            }
            assert forall|k: int|
                0 <= k < hubs.len() && !mask.contains(
                    (#[trigger] hubs[k]).handle().address() as int,
                ) implies out.contains(hubs[k]) by {
                if k == hubs.len() - 1 {
                    assert(next[i] == hubs[k]);
                } else {
                    assert(next[k] == hubs[k]);
                }
            }
        } else {
            lemma_pruned(hubs, mask, i + 1);
        }
    } else {
        assert forall|k: int| 0 <= k < hubs.len() implies hubs.contains(#[trigger] hubs[k]) by {}
    }
}

/// The supervisor.
pub struct Host {
    phase: HostPhase,
    hubs: ArrayVec<Hub, NR_HUBS>,
    enumeration_in_progress: bool,
}

fn listed(addresses: &Vec<usize>, address: usize) -> (r: bool)
    ensures
        r == exists|k: int| 0 <= k < addresses@.len() && #[trigger] addresses@[k] == address,
{
    let mut i: usize = 0;
    while i < addresses.len()
        invariant
            i <= addresses@.len(),
            forall|k: int| 0 <= k < i ==> #[trigger] addresses@[k] != address,
        decreases addresses.len() - i,
    {
        if addresses[i] == address {
            return true;
        }
        i += 1;
    }
    false
}

impl Host {
    /// The hubs that the supervisor keeps, in order.
    pub closed spec fn hubs(&self) -> Seq<Hub> {
        hubs_of(self.hubs)
    }

    pub closed spec fn spec_phase(&self) -> HostPhase {
        self.phase
    }

    pub closed spec fn spec_enumeration_in_progress(&self) -> bool {
        self.enumeration_in_progress
    }

    /// The state of the supervisor.
    pub open spec fn state(&self) -> HostState {
        match self.phase() {
            HostPhase::Disconnected => HostState::Disconnected,
            HostPhase::EnumerateRoot => HostState::EnumerateRoot,
            HostPhase::DeviceAttached => HostState::DeviceAttached {
                hubs: self.hubs(),
                enumeration_in_progress: self.enumeration_in_progress(),
            },
            HostPhase::Suspended => HostState::Suspended,
        }
    }

    /// A supervisor with nothing attached.
    pub fn new() -> (h: Host)
        ensures
            h.state() is Disconnected,
            h.hubs() == Seq::<Hub>::empty(),
    {
        Host { phase: HostPhase::Disconnected, hubs: hubs_new(), enumeration_in_progress: false }
    }

    /// The state of the supervisor, without what it carries.
    #[verifier::when_used_as_spec(spec_phase)]
    pub fn phase(&self) -> (p: HostPhase)
        ensures
            p == self.phase(),
    {
        self.phase
    }

    /// Whether an enumeration below a hub is in progress.
    #[verifier::when_used_as_spec(spec_enumeration_in_progress)]
    pub fn enumeration_in_progress(&self) -> (r: bool)
        ensures
            r == self.enumeration_in_progress(),
    {
        self.enumeration_in_progress
    }

    /// The number of hubs that the supervisor keeps.
    pub fn hub_count(&self) -> (n: usize)
        ensures
            n == self.hubs().len(),
            n <= NR_HUBS,
    {
        hubs_len(&self.hubs)
    }

    /// The hub at `index`.
    pub fn hub(&self, index: usize) -> (hub: Hub)
        requires
            index < self.hubs().len(),
        ensures
            hub == self.hubs()[index as int],
    {
        hubs_get(&self.hubs, index)
    }

    /// Puts a hub back at `index` after it has been polled.
    pub fn set_hub(&mut self, index: usize, hub: Hub)
        requires
            index < old(self).hubs().len(),
        ensures
            final(self).hubs() == old(self).hubs().update(index as int, hub),
            final(self).phase() == old(self).phase(),
            final(self).state() is DeviceAttached ==> final(self).state() == (
            HostState::DeviceAttached {
                hubs: final(self).hubs(),
                enumeration_in_progress: old(self).state()->enumeration_in_progress,
            }),
    {
        hubs_set(&mut self.hubs, index, hub);
    }

    /// Says what is to be awaited in the state the supervisor is in. A
    /// suspended supervisor reports that, and is disconnected from then on.
    pub fn run_until_event(&mut self) -> (action: HostAction)
        ensures
            match old(self).state() {
                HostState::Disconnected => action is AwaitBus && final(self).state() == old(self).state(),
                HostState::EnumerateRoot => action is EnumerateRoot && final(self).state() == old(self).state(),
                HostState::DeviceAttached { .. } => action is AwaitBusOrHubs && final(self).state()
                    == old(self).state(),
                HostState::Suspended => action matches HostAction::Return(HostEvent::Suspended)
                    && final(self).state() is Disconnected,
            },
            final(self).hubs() == old(self).hubs(),
    {
        match self.phase {
            HostPhase::Disconnected => HostAction::AwaitBus,
            HostPhase::EnumerateRoot => HostAction::EnumerateRoot,
            HostPhase::DeviceAttached => HostAction::AwaitBusOrHubs,
            HostPhase::Suspended => {
                self.phase = HostPhase::Disconnected;
                HostAction::Return(HostEvent::Suspended)
            },
        }
    }

    /// The state that an event of the bus leads to when nothing is attached,
    /// or when the event is one that a supervisor with a device attached
    /// passes through: an attach leads to the enumeration of the root
    /// device, a suspension to the suspended state, anything else to the
    /// disconnected state.
    pub open spec fn bus_leads_to(event: Event) -> HostState {
        match event {
            Event::DeviceAttach => HostState::EnumerateRoot,
            Event::DeviceDetach => HostState::Disconnected,
            Event::Suspend => HostState::Suspended,
            Event::Resume => HostState::Disconnected,
        }
    }

    fn follow_bus(&mut self, event: Event)
        ensures
            final(self).state() == Self::bus_leads_to(event),
            final(self).hubs() == Seq::<Hub>::empty(),
    {
        self.hubs = hubs_new();
        self.enumeration_in_progress = false;
        self.phase = match event {
            Event::DeviceAttach => HostPhase::EnumerateRoot,
            Event::DeviceDetach => HostPhase::Disconnected,
            Event::Suspend => HostPhase::Suspended,
            Event::Resume => HostPhase::Disconnected,
        };
    }

    /// Takes an event of the bus while nothing is attached.
    pub fn run_disconnected(&mut self, event: Event)
        ensures
            final(self).state() == Self::bus_leads_to(event),
            final(self).hubs() == Seq::<Hub>::empty(),
    {
        self.follow_bus(event);
    }

    /// Sorts out what came of attaching a device: `None` stands for a bus
    /// that reported a detach before the device had its address. A device
    /// of the hub class is a hub, any other is for a class driver.
    pub fn enumerate_device(
        attach: Option<Result<(DeviceDescriptor, DeviceHandle), UsbHostError>>,
    ) -> (r: Result<Enumerated, UsbHostError>)
        ensures
            r == (match attach {
                None => Err::<Enumerated, UsbHostError>(UsbHostError::Detached),
                Some(Err(e)) => Err(e),
                Some(Ok((d, h))) => Ok(
                    if d.device_class == UsbBaseClass::Hub.wire() {
                        Enumerated::Hub(d, h)
                    } else {
                        Enumerated::Device(d, h)
                    },
                ),
            }),
    {
        match attach {
            None => Err(UsbHostError::Detached),
            Some(Err(e)) => Err(e),
            Some(Ok((descriptor, handle))) => {
                if descriptor.device_class == UsbBaseClass::Hub.into() {
                    Ok(Enumerated::Hub(descriptor, handle))
                } else {
                    Ok(Enumerated::Device(descriptor, handle))
                }
            },
        }
    }

    /// Takes a hub that has been brought up, or the error that kept it from
    /// coming up. The hub joins the list if there is room for it.
    pub fn hub_enumerated(&mut self, hub: Result<Hub, UsbHostError>) -> (r: Result<
        Option<(DeviceDescriptor, DeviceHandle)>,
        UsbHostError,
    >)
        ensures
            r == (match hub {
                Err(e) => Err::<Option<(DeviceDescriptor, DeviceHandle)>, UsbHostError>(e),
                Ok(_) => if old(self).hubs().len() < NR_HUBS {
                    Ok(None)
                } else {
                    Err(UsbHostError::HubCapacity)
                },
            }),
            final(self).hubs() == (match hub {
                Ok(h) => if old(self).hubs().len() < NR_HUBS {
                    old(self).hubs().push(h)
                } else {
                    old(self).hubs()
                },
                Err(_) => old(self).hubs(),
            }),
            final(self).phase() == old(self).phase(),
    {
        match hub {
            Err(e) => Err(e),
            Ok(h) => {
                if hubs_try_push(&mut self.hubs, h) {
                    Ok(None)
                } else {
                    Err(UsbHostError::HubCapacity)
                }
            },
        }
    }

    /// Takes what came of enumerating the device on the root port. Success
    /// leads to the attached state, with the root hub as the one hub if the
    /// device is a hub, and with a new device to report if it is not. Any
    /// error leads back to the disconnected state and is reported as a
    /// suspension.
    pub fn enumerate_root(
        &mut self,
        outcome: Result<Option<(DeviceDescriptor, DeviceHandle)>, UsbHostError>,
    ) -> (r: Option<HostEvent>)
        ensures
            final(self).hubs() == old(self).hubs(),
            match outcome {
                Ok(found) => final(self).state() == (HostState::DeviceAttached {
                    hubs: old(self).hubs(),
                    enumeration_in_progress: false,
                }) && (match found {
                    Some((d, h)) => r matches Some(
                        HostEvent::NewDevice { descriptor, handle },
                    ) && descriptor == d && handle == h,
                    None => r is None,
                }),
                Err(_) => final(self).state() is Disconnected && r matches Some(HostEvent::Suspended),
            },
    {
        match outcome {
            Ok(found) => {
                self.phase = HostPhase::DeviceAttached;
                self.enumeration_in_progress = false;
                match found {
                    Some((descriptor, handle)) => Some(HostEvent::NewDevice { descriptor, handle }),
                    None => None,
                }
            },
            Err(_) => {
                self.phase = HostPhase::Disconnected;
                Some(HostEvent::Suspended)
            },
        }
    }

    /// Takes the hubs out of the list whose address is in the mask.
    pub fn remove_disconnected_hubs(hubs: &mut ArrayVec<Hub, NR_HUBS>, mask: &DeviceDisconnectMask)
        ensures
            hubs_of(*final(hubs)) == pruned(hubs_of(*old(hubs)), mask@, 0),
    {
        let gone = mask.iter();
        let mut i: usize = 0;
        while i < hubs_len(hubs)
            invariant
                pruned(hubs_of(*hubs), mask@, i as int) == pruned(hubs_of(*old(hubs)), mask@, 0),
                forall|k: int| 0 <= k < gone@.len() ==> mask@.contains(#[trigger] gone@[k] as int),
                forall|a: int|
                    mask@.contains(a) ==> exists|k: int| 0 <= k < gone@.len() && #[trigger] gone@[k]
                        == a,
            decreases hubs_of(*hubs).len() - i, hubs_of(*hubs).len(),
        {
            let hub_addr = hubs_get(hubs, i).handle().address() as usize;
            let found = listed(&gone, hub_addr);
            proof {
                if found {
                    let k = choose|k: int| 0 <= k < gone@.len() && #[trigger] gone@[k] == hub_addr;
                    assert(mask@.contains(gone@[k] as int));
                }
            }
            if found {
                hubs_swap_remove(hubs, i);
            } else {
                i += 1;
            }
        }
    }

    /// Takes what came first while a device was attached.
    ///
    /// The reset of a port begins an enumeration. A device ready on a port
    /// is to be enumerated. A device gone from a port gives its address and
    /// those below it back; the hubs among them leave the list, and the
    /// addresses are reported. An event of the bus is passed on.
    pub fn run_device_attached_inner<const NR_DEVICES: usize>(
        &mut self,
        pipe: &mut USBHostPipe<NR_DEVICES>,
        raced: Raced,
    ) -> (r: InnerStep)
        requires
            NR_DEVICES <= 127,
            raced matches Raced::Hubs(Some(HubEvent::DeviceDetach(port))) ==> links_in_table(
                old(pipe).addresses(),
            ) && (forall|n: int| #[trigger]
                is_first_match(old(pipe).addresses(), port, n) ==> !old(pipe).addresses()[n].empty()),
        ensures
            final(self).phase() == old(self).phase(),
            match raced {
                Raced::Hubs(Some(HubEvent::DeviceDetach(port))) => {
                    &&& r matches InnerStep::Done(
                        Some(HostInternalEvent::HostEvent(HostEvent::DeviceDetach { mask })),
                    )
                    &&& final(self).hubs() == pruned(old(self).hubs(), mask@, 0)
                    &&& no_match(old(pipe).addresses(), port) ==> mask@ == Set::<int>::empty()
                        && final(pipe).addresses() == old(pipe).addresses()
                    &&& forall|n: int| #[trigger]
                        is_first_match(old(pipe).addresses(), port, n) ==> {
                            &&& final(pipe).addresses() == without_subtree(old(pipe).addresses(), n)
                            &&& forall|a: int|
                                mask@.contains(a) <==> 1 <= a <= NR_DEVICES && freed_with(
                                    old(pipe).addresses(),
                                    n,
                                    a - 1,
                                )
                        }
                },
                Raced::Hubs(Some(HubEvent::DeviceReset)) => r matches InnerStep::Done(
                    Some(HostInternalEvent::EnumerationBegin),
                ) && final(self).hubs() == old(self).hubs() && final(pipe).addresses() == old(pipe).addresses(),
                Raced::Hubs(Some(HubEvent::DeviceAttach(info))) => r matches InnerStep::Enumerate(i)
                    && i == info && final(self).hubs() == old(self).hubs() && final(pipe).addresses()
                    == old(pipe).addresses(),
                Raced::Hubs(None) => r matches InnerStep::Done(None) && final(self).hubs() == old(self).hubs() && final(pipe).addresses() == old(pipe).addresses(),
                Raced::Bus(event) => r matches InnerStep::Done(
                    Some(HostInternalEvent::BusEvent(e)),
                ) && e == event && final(self).hubs() == old(self).hubs() && final(pipe).addresses()
                    == old(pipe).addresses(),
            },
    {
        match raced {
            Raced::Hubs(Some(HubEvent::DeviceReset)) => InnerStep::Done(
                Some(HostInternalEvent::EnumerationBegin),
            ),
            Raced::Hubs(Some(HubEvent::DeviceAttach(info))) => InnerStep::Enumerate(info),
            Raced::Hubs(Some(HubEvent::DeviceDetach(port))) => {
                let mask = pipe.dev_detach(port);
                Self::remove_disconnected_hubs(&mut self.hubs, &mask);
                InnerStep::Done(Some(HostInternalEvent::HostEvent(HostEvent::DeviceDetach { mask })))
            },
            Raced::Hubs(None) => InnerStep::Done(None),
            Raced::Bus(event) => InnerStep::Done(Some(HostInternalEvent::BusEvent(event))),
        }
    }

    /// Makes an event of what came of enumerating a device below a hub: a
    /// new device to report, or, for a hub, the end of the enumeration.
    pub fn device_enumerated(
        outcome: Result<Option<(DeviceDescriptor, DeviceHandle)>, UsbHostError>,
    ) -> (r: Result<Option<HostInternalEvent>, UsbHostError>)
        ensures
            match outcome {
                Ok(Some((d, h))) => r matches Ok(
                    Some(HostInternalEvent::HostEvent(HostEvent::NewDevice { descriptor, handle })),
                ) && descriptor == d && handle == h,
                Ok(None) => r matches Ok(Some(HostInternalEvent::EnumerationEnd)),
                Err(e) => r matches Err(x) && x == e,
            },
    {
        match outcome {
            Ok(Some((descriptor, handle))) => Ok(
                Some(HostInternalEvent::HostEvent(HostEvent::NewDevice { descriptor, handle })),
            ),
            Ok(None) => Ok(Some(HostInternalEvent::EnumerationEnd)),
            Err(e) => Err(e),
        }
    }

    /// Takes what happened while a device was attached, and says what is to
    /// be reported, if anything.
    ///
    /// A detach on the bus gives every address back, reports them, and
    /// leads to the disconnected state; the other events of the bus lead
    /// where they lead when nothing is attached. The begin of an
    /// enumeration sets the mark that one is in progress; its end, and a
    /// new device, clear it. An error leads to the disconnected state.
    pub fn run_device_attached<const NR_DEVICES: usize>(
        &mut self,
        pipe: &mut USBHostPipe<NR_DEVICES>,
        inner: Result<Option<HostInternalEvent>, UsbHostError>,
    ) -> (r: Option<HostEvent>)
        requires
            NR_DEVICES <= 127,
            old(self).state() is DeviceAttached,
        ensures
            match inner {
                Ok(Some(HostInternalEvent::BusEvent(Event::DeviceDetach))) => {
                    &&& final(self).state() is Disconnected
                    &&& r matches Some(HostEvent::DeviceDetach { mask })
                    &&& forall|a: int|
                        mask@.contains(a) <==> 1 <= a <= NR_DEVICES && live_slot(
                            old(pipe).addresses(),
                            a - 1,
                        )
                    &&& forall|i: int| 0 <= i < NR_DEVICES ==> !live_slot(final(pipe).addresses(), i)
                },
                Ok(Some(HostInternalEvent::BusEvent(event))) => final(self).state()
                    == Self::bus_leads_to(event) && r is None && final(pipe).addresses() == old(pipe).addresses(),
                Ok(Some(HostInternalEvent::EnumerationBegin)) => final(self).state() == (
                HostState::DeviceAttached { hubs: old(self).hubs(), enumeration_in_progress: true })
                    && r is None && final(pipe).addresses() == old(pipe).addresses(),
                Ok(Some(HostInternalEvent::EnumerationEnd)) => final(self).state() == (
                HostState::DeviceAttached { hubs: old(self).hubs(), enumeration_in_progress: false })
                    && r is None && final(pipe).addresses() == old(pipe).addresses(),
                Ok(Some(HostInternalEvent::HostEvent(event))) => r == Some(event) && final(pipe).addresses() == old(pipe).addresses() && final(self).state() == (
                HostState::DeviceAttached {
                    hubs: old(self).hubs(),
                    enumeration_in_progress: if event is NewDevice {
                        false
                    } else {
                        old(self).state()->enumeration_in_progress
                    },
                }),
                Ok(None) => final(self).state() == old(self).state() && r is None && final(pipe).addresses() == old(pipe).addresses(),
                Err(_) => final(self).state() is Disconnected && r is None && final(pipe).addresses()
                    == old(pipe).addresses(),
            },
    {
        match inner {
            Ok(Some(HostInternalEvent::BusEvent(event))) => match event {
                Event::DeviceDetach => {
                    let mask = pipe.root_detach();
                    self.follow_bus(Event::DeviceDetach);
                    Some(HostEvent::DeviceDetach { mask })
                },
                other => {
                    self.follow_bus(other);
                    None
                },
            },
            Ok(Some(HostInternalEvent::EnumerationBegin)) => {
                self.enumeration_in_progress = true;
                None
            },
            Ok(Some(HostInternalEvent::EnumerationEnd)) => {
                self.enumeration_in_progress = false;
                None
            },
            Ok(Some(HostInternalEvent::HostEvent(event))) => {
                match event {
                    HostEvent::NewDevice { .. } => {
                        self.enumeration_in_progress = false;
                    },
                    _ => {},
                }
                Some(event)
            },
            Ok(None) => None,
            Err(_) => {
                self.follow_bus(Event::DeviceDetach);
                None
            },
        }
    }

    /// One step of a sweep over the hubs. `next` is the index of the hub to
    /// poll next, and `polled` what the hub before it had to report, if one
    /// was polled.
    ///
    /// The first hub with an event ends the sweep. A hub with nothing to
    /// report, or with an error, is passed over. After the last hub the
    /// supervisor rests for 100 ms.
    pub fn hub_sweep(&self, next: usize, polled: Option<Result<Option<HubEvent>, UsbHostError>>) -> (r:
        SweepStep)
        ensures
            r == (match polled {
                Some(Ok(Some(event))) => SweepStep::Event(event),
                _ => if next < self.hubs().len() {
                    SweepStep::Poll(next)
                } else {
                    SweepStep::Rest { delay_ms: SWEEP_REST_MS }
                },
            }),
    {
        match polled {
            Some(Ok(Some(event))) => SweepStep::Event(event),
            _ => {
                if next < hubs_len(&self.hubs) {
                    SweepStep::Poll(next)
                } else {
                    SweepStep::Rest { delay_ms: SWEEP_REST_MS }
                }
            },
        }
    }
}

} // verus!
