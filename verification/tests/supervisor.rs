use usb_host::bus::Event;
use usb_host::descriptor::{parse_descriptor, DeviceDescriptor};
use usb_host::device_addr::DeviceHandle;
use usb_host::driver::hub::{Hub, HubEvent, HubSetupStep};
use usb_host::errors::UsbHostError;
use usb_host::host::{Enumerated, InnerStep, Raced, SweepStep};
use usb_host::pipe::USBHostPipe;
use usb_host::types::{DevInfo, PortInfo, UsbSpeed};
use usb_host::{Host, HostAction, HostEvent, HostInternalEvent, HostPhase};

const HUB_CONFIG: [u8; 25] = [
    9, 2, 25, 0, 1, 1, 0, 0xE0, 50, 9, 4, 0, 0, 1, 9, 0, 0, 0, 7, 5, 0x81, 3, 1, 0, 12,
];

fn device(class: u8, max_packet: u8) -> DeviceDescriptor {
    let bytes = [18, 1, 0, 2, class, 0, 0, max_packet, 1, 0, 2, 0, 0, 1, 0, 0, 0, 1];
    parse_descriptor(&bytes).unwrap().0.device().unwrap()
}

fn bring_up(handle: DeviceHandle) -> Hub {
    let (mut setup, _) = Hub::new(handle, device(9, 64));
    let mut buf = [0u8; 255];
    buf[..25].copy_from_slice(&HUB_CONFIG);
    let mut step = setup.step(Ok(25), &buf);
    loop {
        step = match step {
            HubSetupStep::Finished(r) => return r.unwrap(),
            HubSetupStep::Transfer { capacity, .. } => {
                if capacity == 7 {
                    setup.step(Ok(7), &[9, 0x29, 4, 0, 0, 50, 100])
                } else if capacity == 4 {
                    setup.step(Ok(4), &[0x00, 0x01, 0, 0])
                } else {
                    setup.step(Ok(0), &[])
                }
            }
        };
    }
}

#[test]
fn a_disconnected_host_follows_the_bus() {
    let mut host = Host::new();
    assert_eq!(host.phase(), HostPhase::Disconnected);
    assert!(matches!(host.run_until_event(), HostAction::AwaitBus));
    host.run_disconnected(Event::DeviceDetach);
    assert_eq!(host.phase(), HostPhase::Disconnected);
    host.run_disconnected(Event::Resume);
    assert_eq!(host.phase(), HostPhase::Disconnected);
    host.run_disconnected(Event::Suspend);
    assert_eq!(host.phase(), HostPhase::Suspended);
    assert!(matches!(host.run_until_event(), HostAction::Return(HostEvent::Suspended)));
    assert_eq!(host.phase(), HostPhase::Disconnected);
    host.run_disconnected(Event::DeviceAttach);
    assert_eq!(host.phase(), HostPhase::EnumerateRoot);
    assert!(matches!(host.run_until_event(), HostAction::EnumerateRoot));
    assert_eq!(host.phase(), HostPhase::EnumerateRoot);
}

#[test]
fn a_root_device_for_a_class_driver_is_reported() {
    let mut pipe = USBHostPipe::<8>::new();
    let mut host = Host::new();
    host.run_disconnected(Event::DeviceAttach);
    let (handle, _, _) = pipe.assign_device_address(8, DevInfo::root_device(UsbSpeed::FullSpeed));
    let found = Host::enumerate_device(Some(Ok((device(0, 8), handle))));
    assert_eq!(found, Ok(Enumerated::Device(device(0, 8), handle)));
    match host.enumerate_root(Ok(Some((device(0, 8), handle)))) {
        Some(HostEvent::NewDevice { descriptor, handle }) => {
            assert_eq!(handle.address(), 1);
            assert_eq!(handle.max_packet_size(), 8);
            assert_eq!(descriptor.max_packet_size, 8);
        }
        other => panic!("no new device: {:?}", other),
    }
    assert_eq!(host.phase(), HostPhase::DeviceAttached);
    assert_eq!(host.hub_count(), 0);
    assert!(!host.enumeration_in_progress());
    assert!(matches!(host.run_until_event(), HostAction::AwaitBusOrHubs));
}

#[test]
fn enumeration_sorts_hubs_from_devices_and_reports_a_detach() {
    let mut pipe = USBHostPipe::<8>::new();
    let (handle, _, _) = pipe.assign_device_address(64, DevInfo::root_device(UsbSpeed::HighSpeed));
    assert_eq!(
        Host::enumerate_device(Some(Ok((device(9, 64), handle)))),
        Ok(Enumerated::Hub(device(9, 64), handle))
    );
    assert_eq!(
        Host::enumerate_device(Some(Err(UsbHostError::TransferTimeout))),
        Err(UsbHostError::TransferTimeout)
    );
    assert_eq!(Host::enumerate_device(None), Err(UsbHostError::Detached));
}

#[test]
fn a_failed_root_enumeration_is_reported_as_a_suspension() {
    let mut host = Host::new();
    host.run_disconnected(Event::DeviceAttach);
    assert!(matches!(
        host.enumerate_root(Err(UsbHostError::TransferTimeout)),
        Some(HostEvent::Suspended)
    ));
    assert_eq!(host.phase(), HostPhase::Disconnected);
}

#[test]
fn a_root_hub_is_kept_and_not_reported() {
    let mut pipe = USBHostPipe::<8>::new();
    let mut host = Host::new();
    host.run_disconnected(Event::DeviceAttach);
    let (handle, _, _) = pipe.assign_device_address(64, DevInfo::root_device(UsbSpeed::HighSpeed));
    let hub = bring_up(handle);
    let outcome = host.hub_enumerated(Ok(hub));
    assert_eq!(outcome, Ok(None));
    assert!(host.enumerate_root(outcome).is_none());
    assert_eq!(host.phase(), HostPhase::DeviceAttached);
    assert_eq!(host.hub_count(), 1);
    assert_eq!(host.hub(0), hub);
    let mut polled = host.hub(0);
    polled.interrupt_transfer_done(Ok(1));
    host.set_hub(0, polled);
    assert_eq!(host.hub(0), polled);
    assert_ne!(host.hub(0), hub);
}

#[test]
fn a_hub_that_failed_to_come_up_is_an_error() {
    let mut host = Host::new();
    assert_eq!(host.hub_enumerated(Err(UsbHostError::STALL)), Err(UsbHostError::STALL));
    assert_eq!(host.hub_count(), 0);
}

#[test]
fn the_list_of_hubs_has_room_for_eight() {
    let mut pipe = USBHostPipe::<16>::new();
    let mut host = Host::new();
    let (root, _, _) = pipe.assign_device_address(64, DevInfo::root_device(UsbSpeed::HighSpeed));
    assert_eq!(host.hub_enumerated(Ok(bring_up(root))), Ok(None));
    for port in 1..8 {
        let (h, _, _) =
            pipe.assign_device_address(64, DevInfo::new(1, port, None, UsbSpeed::HighSpeed));
        assert_eq!(host.hub_enumerated(Ok(bring_up(h))), Ok(None));
    }
    assert_eq!(host.hub_count(), 8);
    let (h, _, _) = pipe.assign_device_address(64, DevInfo::new(1, 8, None, UsbSpeed::HighSpeed));
    assert_eq!(host.hub_enumerated(Ok(bring_up(h))), Err(UsbHostError::HubCapacity));
    assert_eq!(host.hub_count(), 8);
    assert_eq!(host.hub(7).handle().address(), 8);
}

fn attached_with_root_hub(pipe: &mut USBHostPipe<8>) -> Host {
    let mut host = Host::new();
    host.run_disconnected(Event::DeviceAttach);
    let (handle, _, _) = pipe.assign_device_address(64, DevInfo::root_device(UsbSpeed::HighSpeed));
    let outcome = host.hub_enumerated(Ok(bring_up(handle)));
    host.enumerate_root(outcome);
    host
}

#[test]
fn a_keyboard_below_the_root_hub_is_enumerated_and_detached() {
    let mut pipe = USBHostPipe::<8>::new();
    let mut host = attached_with_root_hub(&mut pipe);

    let step = host.run_device_attached_inner(&mut pipe, Raced::Hubs(Some(HubEvent::DeviceReset)));
    let inner = match step {
        InnerStep::Done(inner) => inner,
        other => panic!("{:?}", other),
    };
    assert!(matches!(inner, Some(HostInternalEvent::EnumerationBegin)));
    assert!(host.run_device_attached(&mut pipe, Ok(inner)).is_none());
    assert!(host.enumeration_in_progress());

    let info = DevInfo::new(1, 1, Some((1, 1)), UsbSpeed::LowSpeed);
    let step =
        host.run_device_attached_inner(&mut pipe, Raced::Hubs(Some(HubEvent::DeviceAttach(info))));
    match step {
        InnerStep::Enumerate(i) => assert_eq!(i, info),
        other => panic!("{:?}", other),
    }
    let (kbd, _, _) = pipe.assign_device_address(8, info);
    assert_eq!(kbd.address(), 2);
    assert_eq!(kbd.dev_info().transaction_translator(), Some((1, 1)));
    let found = Host::enumerate_device(Some(Ok((device(0, 8), kbd))));
    assert_eq!(found, Ok(Enumerated::Device(device(0, 8), kbd)));
    let inner = Host::device_enumerated(Ok(Some((device(0, 8), kbd))));
    match host.run_device_attached(&mut pipe, inner) {
        Some(HostEvent::NewDevice { handle, .. }) => assert_eq!(handle.address(), 2),
        other => panic!("{:?}", other),
    }
    assert!(!host.enumeration_in_progress());

    let port = PortInfo::new(0x81, 1);
    assert!(pipe.can_detach(port));
    let step =
        host.run_device_attached_inner(&mut pipe, Raced::Hubs(Some(HubEvent::DeviceDetach(port))));
    let inner = match step {
        InnerStep::Done(inner) => inner,
        other => panic!("{:?}", other),
    };
    match host.run_device_attached(&mut pipe, Ok(inner)) {
        Some(HostEvent::DeviceDetach { mask }) => assert_eq!(mask.iter(), vec![2]),
        other => panic!("{:?}", other),
    }
    assert_eq!(host.hub_count(), 1);
    assert_eq!(host.phase(), HostPhase::DeviceAttached);
}

#[test]
fn a_nested_hub_leaves_the_list_when_its_port_is_detached() {
    let mut pipe = USBHostPipe::<8>::new();
    let mut host = attached_with_root_hub(&mut pipe);
    let (second, _, _) =
        pipe.assign_device_address(64, DevInfo::new(1, 3, None, UsbSpeed::HighSpeed));
    assert_eq!(second.address(), 2);
    let inner = Host::device_enumerated(host.hub_enumerated(Ok(bring_up(second))));
    assert!(matches!(inner, Ok(Some(HostInternalEvent::EnumerationEnd))));
    assert!(host.run_device_attached(&mut pipe, inner).is_none());
    assert_eq!(host.hub_count(), 2);
    let (third, _, _) =
        pipe.assign_device_address(8, DevInfo::new(2, 2, Some((2, 2)), UsbSpeed::LowSpeed));
    assert_eq!(third.address(), 3);

    let port = PortInfo::new(0x81, 3);
    let step =
        host.run_device_attached_inner(&mut pipe, Raced::Hubs(Some(HubEvent::DeviceDetach(port))));
    match step {
        InnerStep::Done(Some(HostInternalEvent::HostEvent(HostEvent::DeviceDetach { mask }))) => {
            assert_eq!(mask.iter(), vec![2, 3]);
        }
        other => panic!("{:?}", other),
    }
    assert_eq!(host.hub_count(), 1);
    assert_eq!(host.hub(0).handle().address(), 1);
}

#[test]
fn a_detach_on_the_bus_frees_everything() {
    let mut pipe = USBHostPipe::<8>::new();
    let mut host = attached_with_root_hub(&mut pipe);
    pipe.assign_device_address(8, DevInfo::new(1, 1, None, UsbSpeed::HighSpeed));
    let step = host.run_device_attached_inner(&mut pipe, Raced::Bus(Event::DeviceDetach));
    let inner = match step {
        InnerStep::Done(inner) => inner,
        other => panic!("{:?}", other),
    };
    match host.run_device_attached(&mut pipe, Ok(inner)) {
        Some(HostEvent::DeviceDetach { mask }) => assert_eq!(mask.iter(), vec![1, 2]),
        other => panic!("{:?}", other),
    }
    assert_eq!(host.phase(), HostPhase::Disconnected);
    assert_eq!(host.hub_count(), 0);
    assert!(pipe.has_free_address());
    assert_eq!(pipe.root_detach().iter(), Vec::<usize>::new());
}

#[test]
fn other_bus_events_and_errors_while_attached() {
    let mut pipe = USBHostPipe::<8>::new();
    let mut host = attached_with_root_hub(&mut pipe);
    let bus = |e| Ok(Some(HostInternalEvent::BusEvent(e)));
    assert!(host.run_device_attached(&mut pipe, bus(Event::Suspend)).is_none());
    assert_eq!(host.phase(), HostPhase::Suspended);
    let mut host = attached_with_root_hub(&mut pipe);
    assert!(host.run_device_attached(&mut pipe, bus(Event::Resume)).is_none());
    assert_eq!(host.phase(), HostPhase::Disconnected);
    let mut host = attached_with_root_hub(&mut pipe);
    assert!(host.run_device_attached(&mut pipe, bus(Event::DeviceAttach)).is_none());
    assert_eq!(host.phase(), HostPhase::EnumerateRoot);
    assert_eq!(host.hub_count(), 0);
    let mut host = attached_with_root_hub(&mut pipe);
    assert!(host.run_device_attached(&mut pipe, Err(UsbHostError::HubCapacity)).is_none());
    assert_eq!(host.phase(), HostPhase::Disconnected);
    let mut host = attached_with_root_hub(&mut pipe);
    assert!(host.run_device_attached(&mut pipe, Ok(None)).is_none());
    assert_eq!(host.phase(), HostPhase::DeviceAttached);
    assert!(matches!(
        host.run_device_attached_inner(&mut pipe, Raced::Hubs(None)),
        InnerStep::Done(None)
    ));
    assert!(matches!(
        Host::device_enumerated(Err(UsbHostError::Detached)),
        Err(UsbHostError::Detached)
    ));
}

#[test]
fn a_sweep_polls_the_hubs_in_order_and_rests() {
    let mut pipe = USBHostPipe::<8>::new();
    let mut host = attached_with_root_hub(&mut pipe);
    let (second, _, _) =
        pipe.assign_device_address(64, DevInfo::new(1, 3, None, UsbSpeed::HighSpeed));
    host.hub_enumerated(Ok(bring_up(second))).unwrap();
    assert_eq!(host.hub_sweep(0, None), SweepStep::Poll(0));
    assert_eq!(host.hub_sweep(1, Some(Ok(None))), SweepStep::Poll(1));
    assert_eq!(host.hub_sweep(1, Some(Err(UsbHostError::STALL))), SweepStep::Poll(1));
    assert_eq!(host.hub_sweep(2, Some(Ok(None))), SweepStep::Rest { delay_ms: 100 });
    assert_eq!(
        host.hub_sweep(1, Some(Ok(Some(HubEvent::DeviceReset)))),
        SweepStep::Event(HubEvent::DeviceReset)
    );
    assert_eq!(Host::new().hub_sweep(0, None), SweepStep::Rest { delay_ms: 100 });
}
