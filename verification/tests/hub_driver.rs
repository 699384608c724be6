use usb_host::descriptor::{parse_descriptor, DeviceDescriptor};
use usb_host::device_addr::DeviceHandle;
use usb_host::driver::hub::{Hub, HubEvent, HubPollStep, HubSetupStep};
use usb_host::errors::{ParsingError, UsbHostError};
use usb_host::pipe::USBHostPipe;
use usb_host::request::{Request, RequestTypeRecipient, RequestTypeType};
use usb_host::types::{
    DataTog, DevInfo, EndpointAddress, EndpointDirection, PortInfo, UsbSpeed,
};

const HUB_DEVICE: [u8; 18] = [
    18, 1, 0x00, 0x02, 9, 0, 1, 64, 0x34, 0x12, 0x78, 0x56, 0x00, 0x01, 1, 2, 3, 1,
];

const HUB_CONFIG: [u8; 25] = [
    9, 2, 25, 0, 1, 1, 0, 0xE0, 50, // configuration
    9, 4, 0, 0, 1, 9, 0, 0, 0, // interface
    7, 5, 0x81, 3, 1, 0, 12, // endpoint
];

const HUB_DESCRIPTOR: [u8; 7] = [9, 0x29, 4, 0, 0, 50, 100];

fn hub_device() -> DeviceDescriptor {
    parse_descriptor(&HUB_DEVICE).unwrap().0.device().unwrap()
}

fn root_handle(speed: UsbSpeed) -> DeviceHandle {
    let mut pipe = USBHostPipe::<8>::new();
    pipe.assign_device_address(64, DevInfo::root_device(speed)).0
}

fn transfer(request: Request, capacity: usize) -> HubSetupStep {
    HubSetupStep::Transfer { request, capacity }
}

fn poll_transfer(request: Request, capacity: usize) -> HubPollStep {
    HubPollStep::Transfer { request, capacity }
}

fn power(port: u16) -> Request {
    Request::set_feature(RequestTypeRecipient::Other, RequestTypeType::Class, 8, port, 0)
}

fn status(port: u16) -> Request {
    Request::get_status(RequestTypeRecipient::Other, RequestTypeType::Class, 0, port, 4)
}

fn clear(port: u16, feature: u16) -> Request {
    Request::clear_feature(RequestTypeRecipient::Other, RequestTypeType::Class, feature, port, 0)
}

fn config_buffer(bytes: &[u8]) -> [u8; 255] {
    let mut buf = [0u8; 255];
    buf[..bytes.len()].copy_from_slice(bytes);
    buf
}

fn bring_up(handle: DeviceHandle) -> Hub {
    let (mut setup, _) = Hub::new(handle, hub_device());
    let mut step = setup.step(Ok(25), &config_buffer(&HUB_CONFIG));
    loop {
        step = match step {
            HubSetupStep::Finished(r) => return r.unwrap(),
            HubSetupStep::Transfer { request, capacity } => {
                if capacity == 7 {
                    setup.step(Ok(7), &HUB_DESCRIPTOR)
                } else if capacity == 4 {
                    assert_eq!(request.to_bytes()[0], 0xA3);
                    setup.step(Ok(4), &[0x00, 0x01, 0, 0])
                } else {
                    setup.step(Ok(0), &[])
                }
            }
        };
    }
}

#[test]
fn a_hub_with_four_ports_is_brought_up() {
    let handle = root_handle(UsbSpeed::HighSpeed);
    let (mut setup, first) = Hub::new(handle, hub_device());
    assert_eq!(first, transfer(Request::get_configuration_descriptor(0, 255), 255));
    let step = setup.step(Ok(25), &config_buffer(&HUB_CONFIG));
    assert_eq!(step, transfer(Request::set_configuration(1), 0));
    let mut step = setup.step(Ok(0), &[]);
    assert_eq!(
        step,
        transfer(Request::get_descriptor(0x29, RequestTypeType::Class, 0, 0, 7), 7)
    );
    step = setup.step(Ok(7), &HUB_DESCRIPTOR);
    for port in 1..=4 {
        assert_eq!(step, transfer(power(port), 0));
        step = setup.step(Ok(0), &[]);
    }
    for port in 1..=4 {
        assert_eq!(step, transfer(status(port), 4));
        step = setup.step(Ok(4), &[0, 0, 0, 0]);
    }
    for port in 1..=4 {
        assert_eq!(step, transfer(status(port), 4));
        if port == 2 {
            step = setup.step(Ok(4), &[0x01, 0x00, 0, 0]);
            assert_eq!(step, transfer(power(2), 0));
            step = setup.step(Err(UsbHostError::STALL), &[]);
        } else if port == 3 {
            step = setup.step(Err(UsbHostError::TransferTimeout), &[0, 0, 0, 0]);
        } else {
            step = setup.step(Ok(4), &[0x00, 0x01, 0, 0]);
        }
    }
    let hub = match step {
        HubSetupStep::Finished(Ok(hub)) => hub,
        other => panic!("not up: {:?}", other),
    };
    assert_eq!(hub.handle(), handle);
    assert_eq!(hub.handle().address(), 1);
    let channel = hub.interrupt_channel();
    assert_eq!(channel.device_handle(), handle);
    assert_eq!(
        channel.endpoint_address(),
        EndpointAddress { number: 1, direction: EndpointDirection::In }
    );
    assert_eq!(channel.tog(), DataTog::DATA0);
}

#[test]
fn bringing_up_fails_with_the_error_of_a_transfer() {
    let handle = root_handle(UsbSpeed::HighSpeed);
    let (mut setup, _) = Hub::new(handle, hub_device());
    assert_eq!(
        setup.step(Err(UsbHostError::TransferTimeout), &[]),
        HubSetupStep::Finished(Err(UsbHostError::TransferTimeout))
    );
    let (mut setup, _) = Hub::new(handle, hub_device());
    setup.step(Ok(25), &config_buffer(&HUB_CONFIG));
    assert_eq!(
        setup.step(Err(UsbHostError::STALL), &[]),
        HubSetupStep::Finished(Err(UsbHostError::STALL))
    );
    let (mut setup, _) = Hub::new(handle, hub_device());
    setup.step(Ok(25), &config_buffer(&HUB_CONFIG));
    setup.step(Ok(0), &[]);
    setup.step(Ok(7), &HUB_DESCRIPTOR);
    assert_eq!(
        setup.step(Err(UsbHostError::STALL), &[]),
        HubSetupStep::Finished(Err(UsbHostError::STALL))
    );
}

#[test]
fn bringing_up_checks_the_configuration() {
    let handle = root_handle(UsbSpeed::HighSpeed);
    let (mut setup, _) = Hub::new(handle, hub_device());
    assert_eq!(
        setup.step(Ok(0), &config_buffer(&HUB_CONFIG)),
        HubSetupStep::Finished(Err(UsbHostError::InvalidResponse))
    );
    let (mut setup, _) = Hub::new(handle, hub_device());
    assert_eq!(
        setup.step(Ok(18), &config_buffer(&HUB_DEVICE)),
        HubSetupStep::Finished(Err(UsbHostError::InvalidResponse))
    );
    // The endpoint descriptor is cut short: the configuration is selected
    // first, and the error comes when the reading gets there.
    let (mut setup, _) = Hub::new(handle, hub_device());
    assert_eq!(
        setup.step(Ok(22), &config_buffer(&HUB_CONFIG)),
        transfer(Request::set_configuration(1), 0)
    );
    assert_eq!(
        setup.step(Ok(0), &[]),
        HubSetupStep::Finished(Err(UsbHostError::ParsingError(ParsingError::Incomplete)))
    );
}

#[test]
fn a_hub_without_an_endpoint_is_turned_down_after_its_ports_are_powered() {
    let handle = root_handle(UsbSpeed::HighSpeed);
    let (mut setup, _) = Hub::new(handle, hub_device());
    let mut config = HUB_CONFIG;
    config[2] = 18;
    let step = setup.step(Ok(18), &config_buffer(&config));
    assert_eq!(step, transfer(Request::set_configuration(1), 0));
    setup.step(Ok(0), &[]);
    let mut step = setup.step(Ok(7), &[9, 0x29, 1, 0, 0, 50, 100]);
    assert_eq!(step, transfer(power(1), 0));
    step = setup.step(Ok(0), &[]);
    assert_eq!(step, transfer(status(1), 4));
    step = setup.step(Ok(4), &[0, 1, 0, 0]);
    assert_eq!(step, HubSetupStep::Finished(Err(UsbHostError::InvalidResponse)));
}

#[test]
fn a_second_endpoint_is_an_invalid_response() {
    let handle = root_handle(UsbSpeed::HighSpeed);
    let (mut setup, _) = Hub::new(handle, hub_device());
    let mut config = [0u8; 32];
    config[..25].copy_from_slice(&HUB_CONFIG);
    config[25..].copy_from_slice(&[7, 5, 0x82, 3, 1, 0, 12]);
    config[2] = 32;
    let step = setup.step(Ok(32), &config_buffer(&config));
    assert_eq!(step, transfer(Request::set_configuration(1), 0));
    assert_eq!(
        setup.step(Ok(0), &[]),
        HubSetupStep::Finished(Err(UsbHostError::InvalidResponse))
    );
}

#[test]
fn a_new_device_on_a_port_is_reset() {
    let hub = bring_up(root_handle(UsbSpeed::HighSpeed));
    let mut flags = [0u8; 16];
    flags[0] = 0b0000_0010;
    let (mut poll, step) = hub.poll(false, Ok(1), &flags);
    assert_eq!(step, poll_transfer(status(1), 4));
    let step = poll.step(Ok(4), &[0x01, 0x01, 0x01, 0x00]);
    assert_eq!(step, poll_transfer(clear(1, 16), 0));
    let step = poll.step(Ok(0), &[]);
    assert_eq!(
        step,
        poll_transfer(
            Request::set_feature(RequestTypeRecipient::Other, RequestTypeType::Class, 4, 1, 0),
            0
        )
    );
    assert_eq!(
        poll.step(Ok(0), &[]),
        HubPollStep::Finished(Ok(Some(HubEvent::DeviceReset)))
    );
}

#[test]
fn the_end_of_a_reset_attaches_a_low_speed_device_through_the_hub() {
    let hub = bring_up(root_handle(UsbSpeed::HighSpeed));
    let mut flags = [0u8; 16];
    flags[0] = 0b0000_0010;
    let (mut poll, step) = hub.poll(true, Ok(1), &flags);
    assert_eq!(step, poll_transfer(status(1), 4));
    let step = poll.step(Ok(4), &[0x03, 0x03, 0x10, 0x00]);
    assert_eq!(step, poll_transfer(clear(1, 20), 0));
    let step = poll.step(Ok(0), &[]);
    let expected = DevInfo::new(1, 1, Some((1, 1)), UsbSpeed::LowSpeed);
    assert_eq!(step, HubPollStep::Finished(Ok(Some(HubEvent::DeviceAttach(expected)))));
    assert_eq!(expected.port(), PortInfo::new(0x81, 1));
}

#[test]
fn a_device_inherits_the_translator_of_a_classic_speed_hub() {
    let mut pipe = USBHostPipe::<8>::new();
    pipe.assign_device_address(64, DevInfo::root_device(UsbSpeed::HighSpeed));
    let (handle, _, _) =
        pipe.assign_device_address(64, DevInfo::new(1, 2, Some((1, 2)), UsbSpeed::FullSpeed));
    assert_eq!(handle.address(), 2);
    let hub = bring_up(handle);
    let mut flags = [0u8; 16];
    flags[0] = 0b0000_1000;
    let (mut poll, step) = hub.poll(true, Ok(1), &flags);
    assert_eq!(step, poll_transfer(status(3), 4));
    poll.step(Ok(4), &[0x03, 0x03, 0x10, 0x00]);
    assert_eq!(
        poll.step(Ok(0), &[]),
        HubPollStep::Finished(Ok(Some(HubEvent::DeviceAttach(DevInfo::new(
            2,
            3,
            Some((1, 2)),
            UsbSpeed::LowSpeed
        )))))
    );
    // A high-speed device below a high-speed hub has no translator.
    let hub = bring_up(root_handle(UsbSpeed::HighSpeed));
    let (mut poll, _) = hub.poll(true, Ok(1), &flags);
    poll.step(Ok(4), &[0x03, 0x05, 0x10, 0x00]);
    assert_eq!(
        poll.step(Ok(0), &[]),
        HubPollStep::Finished(Ok(Some(HubEvent::DeviceAttach(DevInfo::new(
            1,
            3,
            None,
            UsbSpeed::HighSpeed
        )))))
    );
}

#[test]
fn a_port_that_lost_its_device_is_detached() {
    let hub = bring_up(root_handle(UsbSpeed::HighSpeed));
    let mut flags = [0u8; 16];
    flags[0] = 0b0000_0010;
    let (mut poll, _) = hub.poll(false, Ok(1), &flags);
    let step = poll.step(Ok(4), &[0x00, 0x01, 0x01, 0x00]);
    assert_eq!(step, poll_transfer(clear(1, 16), 0));
    assert_eq!(
        poll.step(Ok(0), &[]),
        HubPollStep::Finished(Ok(Some(HubEvent::DeviceDetach(PortInfo::new(0x81, 1)))))
    );
    let (mut poll, _) = hub.poll(true, Ok(1), &flags);
    poll.step(Ok(4), &[0x00, 0x01, 0x01, 0x00]);
    assert_eq!(
        poll.step(Err(UsbHostError::STALL), &[]),
        HubPollStep::Finished(Err(UsbHostError::STALL))
    );
}

#[test]
fn a_second_port_waits_while_an_enumeration_is_in_progress() {
    let hub = bring_up(root_handle(UsbSpeed::HighSpeed));
    let mut flags = [0u8; 16];
    flags[0] = 0b0001_0100;
    let (mut poll, step) = hub.poll(true, Ok(1), &flags);
    assert_eq!(step, poll_transfer(status(2), 4));
    let step = poll.step(Ok(4), &[0x01, 0x01, 0x01, 0x00]);
    assert_eq!(step, poll_transfer(status(4), 4));
    let step = poll.step(Ok(4), &[0x01, 0x01, 0x01, 0x00]);
    assert_eq!(step, HubPollStep::Finished(Ok(None)));
}

#[test]
fn a_poll_passes_over_the_hub_itself_and_over_ports_it_cannot_read() {
    let hub = bring_up(root_handle(UsbSpeed::HighSpeed));
    let mut flags = [0u8; 16];
    flags[0] = 0b0000_0001;
    flags[1] = 0b0000_0001;
    flags[15] = 0b1000_0000;
    let (mut poll, step) = hub.poll(false, Ok(16), &flags);
    assert_eq!(step, poll_transfer(status(8), 4));
    let step = poll.step(Err(UsbHostError::TransferTimeout), &[0, 0, 0, 0]);
    assert_eq!(step, poll_transfer(status(127), 4));
    let step = poll.step(Ok(2), &[1, 1, 1, 0]);
    assert_eq!(step, HubPollStep::Finished(Ok(None)));
}

#[test]
fn nak_means_that_nothing_happened() {
    let hub = bring_up(root_handle(UsbSpeed::HighSpeed));
    let flags = [0xFFu8; 16];
    let (_, step) = hub.poll(false, Err(UsbHostError::NAK), &flags);
    assert_eq!(step, HubPollStep::Finished(Ok(None)));
    let (_, step) = hub.poll(false, Err(UsbHostError::STALL), &flags);
    assert_eq!(step, HubPollStep::Finished(Err(UsbHostError::STALL)));
    let (_, step) = hub.poll(false, Ok(0), &[0u8; 16]);
    assert_eq!(step, HubPollStep::Finished(Ok(None)));
}

#[test]
fn the_hub_toggle_flips_on_success_only() {
    let mut hub = bring_up(root_handle(UsbSpeed::HighSpeed));
    hub.interrupt_transfer_done(Err(UsbHostError::NAK));
    assert_eq!(hub.interrupt_channel().tog(), DataTog::DATA0);
    hub.interrupt_transfer_done(Ok(1));
    assert_eq!(hub.interrupt_channel().tog(), DataTog::DATA1);
}
