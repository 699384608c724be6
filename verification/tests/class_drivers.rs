use usb_host::descriptor::{parse_descriptor, DeviceDescriptor};
use usb_host::device_addr::DeviceHandle;
use usb_host::driver::dfu::{DFUCapabilities, DFUOperation, DfuStep, UsbDfu};
use usb_host::driver::kbd::{HidKbd, KbdSetupStep, KbdStep, KeyPress};
use usb_host::errors::{ParsingError, UsbHostError};
use usb_host::pipe::USBHostPipe;
use usb_host::request::Request;
use usb_host::types::{
    Bcd16, DataTog, DevInfo, EndpointAddress, EndpointDirection, UsbSpeed,
};

const KBD_CONFIG: [u8; 34] = [
    9, 2, 34, 0, 1, 1, 0, 0xA0, 50, // configuration
    9, 4, 0, 0, 1, 3, 1, 1, 0, // interface
    9, 0x21, 0x11, 0x01, 0, 1, 0x22, 63, 0, // HID
    7, 5, 0x81, 3, 8, 0, 10, // endpoint
];

const DFU_CONFIG: [u8; 27] = [
    9, 2, 27, 0, 1, 1, 0, 0x80, 50, // configuration
    9, 4, 0, 0, 0, 0xFE, 1, 1, 0, // interface
    9, 0x21, 0x0B, 0xE8, 0x03, 0x40, 0x00, 0x10, 0x01, // DFU functional
];

fn device(class: u8) -> DeviceDescriptor {
    let bytes = [18, 1, 0, 2, class, 0, 0, 8, 1, 0, 2, 0, 0, 1, 0, 0, 0, 1];
    parse_descriptor(&bytes).unwrap().0.device().unwrap()
}

fn handle() -> DeviceHandle {
    let mut pipe = USBHostPipe::<4>::new();
    pipe.assign_device_address(8, DevInfo::root_device(UsbSpeed::FullSpeed)).0
}

fn config_buffer(bytes: &[u8]) -> [u8; 255] {
    let mut buf = [0u8; 255];
    buf[..bytes.len()].copy_from_slice(bytes);
    buf
}

#[test]
fn keys_map_to_characters() {
    assert_eq!(HidKbd::hid_key_to_ascii(0x04), 'a');
    assert_eq!(HidKbd::hid_key_to_ascii(0x1D), 'z');
    assert_eq!(HidKbd::hid_key_to_ascii(0x1E), '1');
    assert_eq!(HidKbd::hid_key_to_ascii(0x26), '9');
    assert_eq!(HidKbd::hid_key_to_ascii(0x27), ':');
    assert_eq!(HidKbd::hid_key_to_ascii(0x28), '\n');
    assert_eq!(HidKbd::hid_key_to_ascii(0x29), '\x1B');
    assert_eq!(HidKbd::hid_key_to_ascii(0x2A), '\x08');
    assert_eq!(HidKbd::hid_key_to_ascii(0x2B), '\t');
    assert_eq!(HidKbd::hid_key_to_ascii(0x2C), ' ');
    assert_eq!(HidKbd::hid_key_to_ascii(0x31), '\\');
    assert_eq!(HidKbd::hid_key_to_ascii(0x32), '?');
    assert_eq!(HidKbd::hid_key_to_ascii(0x38), '/');
    assert_eq!(HidKbd::hid_key_to_ascii(0x00), '?');
    assert_eq!(HidKbd::hid_key_to_ascii(0xFF), '?');
}

#[test]
fn a_report_lists_the_keys_that_are_down() {
    let report = HidKbd::process_keyboard_report(&[0x22, 0, 0x04, 0, 0x1E, 0x2C, 0, 0x39]);
    assert_eq!(report.modifiers, 0x22);
    assert_eq!(
        report.keys,
        vec![
            KeyPress { code: 0x04, ascii: 'a' },
            KeyPress { code: 0x1E, ascii: '1' },
            KeyPress { code: 0x2C, ascii: ' ' },
            KeyPress { code: 0x39, ascii: '?' },
        ]
    );
    let idle = HidKbd::process_keyboard_report(&[0; 8]);
    assert_eq!(idle.modifiers, 0);
    assert!(idle.keys.is_empty());
}

#[test]
fn a_keyboard_is_configured() {
    let h = handle();
    assert_eq!(
        HidKbd::try_attach(h, device(3)).err(),
        Some(UsbHostError::UnexpectedDevice)
    );
    let (mut setup, first) = HidKbd::try_attach(h, device(0)).unwrap();
    assert_eq!(
        first,
        KbdSetupStep::Transfer {
            request: Request::get_configuration_descriptor(0, 255),
            capacity: 255
        }
    );
    let step = setup.step(Ok(34), &config_buffer(&KBD_CONFIG));
    assert_eq!(
        step,
        KbdSetupStep::Transfer { request: Request::set_configuration(1), capacity: 0 }
    );
    let step = setup.step(Ok(0), &[]);
    match step {
        KbdSetupStep::Transfer { request, capacity } => {
            assert_eq!(request.to_bytes(), [0x21, 0x0A, 0, 0, 0, 0, 0, 0]);
            assert_eq!(capacity, 0);
        }
        other => panic!("{:?}", other),
    }
    let kbd = match setup.step(Ok(0), &[]) {
        KbdSetupStep::Finished(Ok(kbd)) => kbd,
        other => panic!("{:?}", other),
    };
    assert_eq!(kbd.device, h);
    let channel = kbd.interrupt_channel.unwrap();
    assert_eq!(
        channel.endpoint_address(),
        EndpointAddress { number: 1, direction: EndpointDirection::In }
    );
    assert_eq!(channel.tog(), DataTog::DATA0);
    assert_eq!(channel.device_handle(), h);
}

#[test]
fn a_keyboard_without_an_in_endpoint_is_turned_down() {
    let h = handle();
    let mut config = KBD_CONFIG;
    config[29] = 0x01;
    let (mut setup, _) = HidKbd::try_attach(h, device(0)).unwrap();
    setup.step(Ok(34), &config_buffer(&config));
    setup.step(Ok(0), &[]);
    assert_eq!(
        setup.step(Ok(0), &[]),
        KbdSetupStep::Finished(Err(UsbHostError::InvalidResponse))
    );
    let (mut setup, _) = HidKbd::try_attach(h, device(0)).unwrap();
    setup.step(Ok(34), &config_buffer(&KBD_CONFIG));
    assert_eq!(
        setup.step(Err(UsbHostError::STALL), &[]),
        KbdSetupStep::Finished(Err(UsbHostError::STALL))
    );
    let (mut setup, _) = HidKbd::try_attach(h, device(0)).unwrap();
    setup.step(Ok(30), &config_buffer(&KBD_CONFIG));
    assert_eq!(
        setup.step(Ok(0), &[]),
        KbdSetupStep::Finished(Err(UsbHostError::ParsingError(ParsingError::Incomplete)))
    );
}

#[test]
fn reports_are_taken_when_they_change() {
    let h = handle();
    assert_eq!(
        HidKbd { device: h, interrupt_channel: None }.run().err(),
        Some(UsbHostError::InvalidState)
    );
    let (mut setup, _) = HidKbd::try_attach(h, device(0)).unwrap();
    setup.step(Ok(34), &config_buffer(&KBD_CONFIG));
    setup.step(Ok(0), &[]);
    let kbd = match setup.step(Ok(0), &[]) {
        KbdSetupStep::Finished(Ok(kbd)) => kbd,
        other => panic!("{:?}", other),
    };
    let mut run = kbd.run().unwrap();
    assert_eq!(run.prev_report, [0; 8]);
    assert!(matches!(run.on_transfer(Ok(8), &[0; 8]), KbdStep::Continue(None)));
    let pressed = [0, 0, 0x04, 0, 0, 0, 0, 0];
    match run.on_transfer(Ok(8), &pressed) {
        KbdStep::Continue(Some(report)) => {
            assert_eq!(report.keys, vec![KeyPress { code: 0x04, ascii: 'a' }]);
        }
        other => panic!("{:?}", other),
    }
    assert_eq!(run.prev_report, pressed);
    assert!(matches!(run.on_transfer(Ok(8), &pressed), KbdStep::Continue(None)));
    assert!(matches!(run.on_transfer(Ok(0), &[0; 8]), KbdStep::Continue(None)));
    assert_eq!(run.prev_report, pressed);
    assert!(matches!(run.on_transfer(Err(UsbHostError::NAK), &[0; 8]), KbdStep::Continue(None)));
    assert!(matches!(
        run.on_transfer(Err(UsbHostError::TransferTimeout), &[0; 8]),
        KbdStep::Stop(UsbHostError::TransferTimeout)
    ));
}

#[test]
fn a_dfu_device_is_known_by_its_interface_and_functional_descriptor() {
    let h = handle();
    let dfu = UsbDfu::try_attach(h, device(0), &DFU_CONFIG).unwrap();
    assert_eq!(dfu.device, h);
    assert_eq!(dfu.info.capabilities, DFUCapabilities(0x0B));
    assert!(dfu.info.capabilities.can_download());
    assert!(dfu.info.capabilities.can_upload());
    assert!(!dfu.info.capabilities.can_manifest());
    assert!(dfu.info.capabilities.can_detach());
    assert!(DFUCapabilities(0x04).can_manifest());
    assert_eq!(dfu.info.detach_timeout, 1000);
    assert_eq!(dfu.info.transfer_size, 64);
    assert_eq!(dfu.info.version, Bcd16(0x0110));
    assert_eq!(DFUCapabilities::default(), DFUCapabilities(0));
}

#[test]
fn what_is_no_dfu_device_is_turned_down() {
    let h = handle();
    assert_eq!(
        UsbDfu::try_attach(h, device(0), &KBD_CONFIG).err(),
        Some(UsbHostError::UnexpectedDevice)
    );
    assert_eq!(
        UsbDfu::try_attach(h, device(0), &DFU_CONFIG[..18]).err(),
        Some(UsbHostError::InvalidState)
    );
    assert_eq!(
        UsbDfu::try_attach(h, device(0), &DFU_CONFIG[..20]).err(),
        Some(UsbHostError::ParsingError(ParsingError::Incomplete))
    );
    let mut other_class = DFU_CONFIG;
    other_class[14] = 0xFF;
    assert_eq!(
        UsbDfu::try_attach(h, device(0), &other_class).err(),
        Some(UsbHostError::UnexpectedDevice)
    );
    let mut other_subclass = DFU_CONFIG;
    other_subclass[15] = 2;
    assert_eq!(
        UsbDfu::try_attach(h, device(0), &other_subclass).err(),
        Some(UsbHostError::UnexpectedDevice)
    );
    let with_device = [18, 1, 0, 2, 0, 0, 0, 8, 1, 0, 2, 0, 0, 1, 0, 0, 0, 1];
    assert_eq!(
        UsbDfu::try_attach(h, device(0), &with_device).err(),
        Some(UsbHostError::InvalidResponse)
    );
}

#[test]
fn a_download_counts_its_blocks_and_tries_each_three_times() {
    let dfu = UsbDfu::try_attach(handle(), device(0), &DFU_CONFIG).unwrap();
    let (mut run, first) = dfu.run();
    match first {
        DfuStep::Transfer { request, payload } => {
            assert_eq!(request.to_bytes(), [0xA1, 5, 0, 0, 0, 0, 1, 0]);
            assert_eq!(payload, None);
        }
        other => panic!("{:?}", other),
    }
    assert_eq!(run.on_transfer(Ok(1)), DfuStep::Idle);
    assert_eq!(run.on_operation(DFUOperation::StartDownload), DfuStep::Idle);
    let block = [1, 2, 3, 4, 5, 6, 7, 8];
    let step = run.on_operation(DFUOperation::Bytes(block));
    match step {
        DfuStep::Transfer { request, payload } => {
            assert_eq!(request.to_bytes(), [0x21, 1, 0, 0, 0, 0, 8, 0]);
            assert_eq!(payload, Some(block));
        }
        other => panic!("{:?}", other),
    }
    assert_eq!(run.on_transfer(Err(UsbHostError::STALL)), step);
    assert_eq!(run.on_transfer(Err(UsbHostError::STALL)), step);
    assert_eq!(run.on_transfer(Err(UsbHostError::STALL)), DfuStep::Idle);
    assert_eq!(run.block, 0);
    run.on_operation(DFUOperation::Bytes(block));
    assert_eq!(run.on_transfer(Ok(8)), DfuStep::Idle);
    assert_eq!(run.block, 1);
    match run.on_operation(DFUOperation::Bytes(block)) {
        DfuStep::Transfer { request, .. } => {
            assert_eq!(request.to_bytes(), [0x21, 1, 1, 0, 0, 0, 8, 0]);
        }
        other => panic!("{:?}", other),
    }
    run.block = u16::MAX;
    assert_eq!(run.on_transfer(Ok(8)), DfuStep::Idle);
    assert_eq!(run.block, 0);
    assert_eq!(run.on_operation(DFUOperation::Manifest), DfuStep::Idle);
    assert_eq!(run.on_operation(DFUOperation::Detach), DfuStep::Finished(Ok(())));
}

#[test]
fn a_dfu_device_that_does_not_answer_ends_the_driver() {
    let dfu = UsbDfu::try_attach(handle(), device(0), &DFU_CONFIG).unwrap();
    let (mut run, _) = dfu.run();
    assert_eq!(
        run.on_transfer(Err(UsbHostError::TransferTimeout)),
        DfuStep::Finished(Err(UsbHostError::TransferTimeout))
    );
}
