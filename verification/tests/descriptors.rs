use usb_host::descriptor::hid::HIDDescriptor;
use usb_host::descriptor::hub::HubDescriptor;
use usb_host::descriptor::{
    parse_descriptor, read_le16, ConfigurationAttributes, Descriptor, DescriptorIterator,
    DescriptorType,
};
use usb_host::driver::get_configuration_descriptor;
use usb_host::errors::{ParsingError, UsbHostError};
use usb_host::types::Bcd16;

const DEVICE: [u8; 18] = [
    18, 1, 0x00, 0x02, 0, 0, 0, 8, 0x34, 0x12, 0x78, 0x56, 0x00, 0x01, 1, 2, 3, 1,
];

const CONFIG: [u8; 34] = [
    9, 2, 34, 0, 1, 1, 0, 0xA0, 50, // configuration
    9, 4, 0, 0, 1, 3, 1, 1, 0, // interface
    9, 0x21, 0x11, 0x01, 0, 1, 0x22, 63, 0, // HID
    7, 5, 0x81, 3, 8, 0, 10, // endpoint
];

#[test]
fn device_descriptor_is_decoded_low_byte_first() {
    let (d, n) = parse_descriptor(&DEVICE).unwrap();
    assert_eq!(n, 18);
    let d = d.device().unwrap();
    assert_eq!(d.length, 18);
    assert_eq!(d.descriptor_type, DescriptorType::Device);
    assert_eq!(d.usb_release, Bcd16(0x0200));
    assert_eq!(d.device_class, 0);
    assert_eq!(d.max_packet_size, 8);
    assert_eq!(d.id_vendor, 0x1234);
    assert_eq!(d.id_product, 0x5678);
    assert_eq!(d.device_release, Bcd16(0x0100));
    assert_eq!(d.manufacturer_index, 1);
    assert_eq!(d.product_index, 2);
    assert_eq!(d.serial_number_index, 3);
    assert_eq!(d.num_configurations, 1);
}

#[test]
fn parsing_reports_each_failure() {
    let incomplete = UsbHostError::ParsingError(ParsingError::Incomplete);
    let invalid = UsbHostError::ParsingError(ParsingError::InvalidLength);
    assert_eq!(parse_descriptor(&[]).unwrap_err(), incomplete);
    assert_eq!(parse_descriptor(&[18]).unwrap_err(), incomplete);
    assert_eq!(parse_descriptor(&[17, 1, 0, 0]).unwrap_err(), invalid);
    assert_eq!(parse_descriptor(&[0, 2, 0, 0, 0, 0, 0, 0, 0]).unwrap_err(), invalid);
    assert_eq!(parse_descriptor(&[1, 0x30]).unwrap_err(), invalid);
    assert_eq!(parse_descriptor(&DEVICE[..7]).unwrap_err(), incomplete);
    assert_eq!(
        parse_descriptor(&DEVICE[..8]).unwrap_err(),
        UsbHostError::ParsingError(ParsingError::IncompleteDeviceDescriptor { max_packet_size: 8 })
    );
    assert_eq!(
        parse_descriptor(&DEVICE[..17]).unwrap_err(),
        UsbHostError::ParsingError(ParsingError::IncompleteDeviceDescriptor { max_packet_size: 8 })
    );
    assert_eq!(parse_descriptor(&CONFIG[..8]).unwrap_err(), incomplete);
    assert_eq!(parse_descriptor(&CONFIG[9..17]).unwrap_err(), incomplete);
    assert_eq!(parse_descriptor(&CONFIG[27..33]).unwrap_err(), incomplete);
    assert_eq!(parse_descriptor(&[5, 0x30, 1, 2]).unwrap_err(), incomplete);
}

#[test]
fn unknown_types_pass_through_in_band() {
    let (d, n) = parse_descriptor(&[4, 0x30, 7, 9, 1]).unwrap();
    assert_eq!(n, 4);
    match d {
        Descriptor::UnknownDescriptor { descriptor_type, length, data } => {
            assert_eq!(descriptor_type, 0x30);
            assert_eq!(length, 4);
            assert_eq!(data, &[4, 0x30, 7, 9]);
        }
        _ => panic!("not unknown"),
    }
    let (d, n) = parse_descriptor(&[4, 3, 0x09, 0x04]).unwrap();
    assert_eq!(n, 4);
    assert!(matches!(d, Descriptor::UnknownDescriptor { descriptor_type: 3, length: 4, .. }));
}

#[test]
fn records_of_a_configuration_come_in_order() {
    let all = DescriptorIterator::new(&CONFIG).collect();
    assert_eq!(all.len(), 4);
    let c = all[0].unwrap().configuration().unwrap();
    assert_eq!(c.total_length, 34);
    assert_eq!(c.num_interfaces, 1);
    assert_eq!(c.value, 1);
    assert_eq!(c.attributes, ConfigurationAttributes(0xA0));
    assert!(!c.attributes.self_powered());
    assert!(c.attributes.remote_wakeup());
    assert!(ConfigurationAttributes(0x40).self_powered());
    assert_eq!(c.max_power, 50);
    let i = all[1].unwrap().interface().unwrap();
    assert_eq!(i.b_interface_class, 3);
    assert_eq!(i.b_interface_sub_class, 1);
    assert_eq!(i.b_interface_protocol, 1);
    assert_eq!(i.b_num_endpoints, 1);
    match all[2].unwrap() {
        Descriptor::UnknownDescriptor { descriptor_type, length, data } => {
            assert_eq!(descriptor_type, 0x21);
            assert_eq!(length, 9);
            let hid = HIDDescriptor::parse(data).unwrap();
            assert_eq!(hid.bcd_hid, Bcd16(0x0111));
            assert_eq!(hid.total_length, 9);
            assert_eq!(hid.num_descriptors, 0x22);
        }
        _ => panic!("not unknown"),
    }
    let e = all[3].unwrap().endpoint().unwrap();
    assert_eq!(e.b_endpoint_address, 0x81);
    assert_eq!(e.bm_attributes, 3);
    assert_eq!(e.w_max_packet_size, 8);
    assert_eq!(e.b_interval, 10);
    assert!(all[3].unwrap().device().is_none());
    assert!(all[0].unwrap().endpoint().is_none());
    assert!(all[0].unwrap().interface().is_none());
    assert!(all[1].unwrap().configuration().is_none());
}

#[test]
fn reading_stops_at_the_first_bad_record() {
    let mut it = DescriptorIterator::new(&CONFIG[..30]);
    assert!(it.next().unwrap().is_ok());
    assert!(it.next().unwrap().is_ok());
    assert!(it.next().unwrap().is_ok());
    assert_eq!(
        it.next().unwrap().unwrap_err(),
        UsbHostError::ParsingError(ParsingError::Incomplete)
    );
    assert!(it.next().is_none());
    assert!(it.next().is_none());
    assert_eq!(DescriptorIterator::new(&[]).collect().len(), 0);
    assert_eq!(DescriptorIterator::new(&CONFIG[..30]).collect().len(), 4);
}

#[test]
fn a_record_that_claims_too_much_ends_the_reading() {
    let bytes = [200u8, 2, 9, 0, 1, 1, 0, 0, 0, 7, 5, 0x81, 3, 8, 0, 10];
    let all = DescriptorIterator::new(&bytes).collect();
    assert_eq!(all.len(), 1);
    assert!(all[0].unwrap().configuration().is_some());
}

#[test]
fn configuration_answers_are_checked() {
    let mut buf = [0u8; 255];
    buf[..34].copy_from_slice(&CONFIG);
    assert!(get_configuration_descriptor(&buf, 34).is_ok());
    assert_eq!(get_configuration_descriptor(&buf, 34).unwrap().collect().len(), 4);
    assert!(get_configuration_descriptor(&buf, 27).is_ok());
    assert_eq!(
        get_configuration_descriptor(&buf, 0).err(),
        Some(UsbHostError::InvalidResponse)
    );
    assert_eq!(
        get_configuration_descriptor(&buf, 5).err(),
        Some(UsbHostError::ParsingError(ParsingError::Incomplete))
    );
    assert_eq!(
        get_configuration_descriptor(&buf[9..], 9).err(),
        Some(UsbHostError::InvalidResponse)
    );
    let mut long = [0u8; 16];
    long[..9].copy_from_slice(&[9, 2, 0x00, 0x01, 1, 1, 0, 0, 0]);
    assert_eq!(
        get_configuration_descriptor(&long, 16).err(),
        Some(UsbHostError::BufferOverflow)
    );
}

#[test]
fn class_descriptors_are_read_from_bytes() {
    let hub = HubDescriptor::from_bytes(&[9, 0x29, 4, 0x89, 0x00, 50, 100]);
    assert_eq!(hub.number_of_ports, 4);
    assert_eq!(hub.hub_characteristics, 0x0089);
    assert_eq!(hub.power_on_to_power_good_time, 50);
    assert_eq!(hub.hub_controller_current, 100);
    assert_eq!(HubDescriptor::default().number_of_ports, 0);
    assert_eq!(HIDDescriptor::parse(&[9, 0x21, 0x11, 0x01, 0, 1]), None);
    assert_eq!(read_le16(&[1, 2, 3], 1), 0x0302);
    assert_eq!(DescriptorType::try_from(5), Ok(DescriptorType::Endpoint));
    assert_eq!(DescriptorType::try_from(6), Err(()));
    assert_eq!(DescriptorType::try_from(0), Err(()));
    assert_eq!(DescriptorType::String.code(), 3);
}
