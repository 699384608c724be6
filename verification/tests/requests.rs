use usb_host::request::{
    Request, RequestType, RequestTypeDirection, RequestTypeRecipient, RequestTypeType,
    StandardDeviceRequest,
};

#[test]
fn setup_packets_are_bit_exact() {
    assert_eq!(
        Request::get_descriptor(1, RequestTypeType::Standard, 0, 0, 64).to_bytes(),
        [0x80, 6, 0, 1, 0, 0, 64, 0]
    );
    assert_eq!(Request::set_address(1).to_bytes(), [0, 5, 1, 0, 0, 0, 0, 0]);
    assert_eq!(Request::set_configuration(1).to_bytes(), [0, 9, 1, 0, 0, 0, 0, 0]);
    assert_eq!(
        Request::get_configuration_descriptor(0, 255).to_bytes(),
        [0x80, 6, 0, 2, 0, 0, 255, 0]
    );
    assert_eq!(
        Request::get_descriptor(0x29, RequestTypeType::Class, 0, 0, 7).to_bytes(),
        [0xA0, 6, 0, 0x29, 0, 0, 7, 0]
    );
    assert_eq!(
        Request::set_feature(RequestTypeRecipient::Other, RequestTypeType::Class, 8, 3, 0)
            .to_bytes(),
        [0x23, 3, 8, 0, 3, 0, 0, 0]
    );
    assert_eq!(
        Request::clear_feature(RequestTypeRecipient::Other, RequestTypeType::Class, 16, 1, 0)
            .to_bytes(),
        [0x23, 1, 16, 0, 1, 0, 0, 0]
    );
    assert_eq!(
        Request::get_status(RequestTypeRecipient::Other, RequestTypeType::Class, 0, 2, 4)
            .to_bytes(),
        [0xA3, 0, 0, 0, 2, 0, 4, 0]
    );
    assert_eq!(
        Request::get_descriptor(3, RequestTypeType::Standard, 2, 0x0409, 0x1234).to_bytes(),
        [0x80, 6, 2, 3, 0x09, 0x04, 0x34, 0x12]
    );
}

#[test]
fn request_type_fields_are_independent() {
    let mut t = RequestType::default();
    assert_eq!(t.bits(), 0);
    assert_eq!(t.data_direction(), RequestTypeDirection::HostToDevice);
    assert_eq!(t.request_type(), RequestTypeType::Standard);
    assert_eq!(t.recipient(), RequestTypeRecipient::Device);
    t.set_data_direction(RequestTypeDirection::DeviceToHost);
    assert_eq!(t.bits(), 0x80);
    t.set_type(RequestTypeType::Vendor);
    assert_eq!(t.bits(), 0xC0);
    t.set_recipient(RequestTypeRecipient::Endpoint);
    assert_eq!(t.bits(), 0xC2);
    assert_eq!(t.data_direction(), RequestTypeDirection::DeviceToHost);
    assert_eq!(t.request_type(), RequestTypeType::Vendor);
    assert_eq!(t.recipient(), RequestTypeRecipient::Endpoint);
    t.set_data_direction(RequestTypeDirection::HostToDevice);
    assert_eq!(t.bits(), 0x42);
    t.set_type(RequestTypeType::Class);
    assert_eq!(t.bits(), 0x22);
    t.set_recipient(RequestTypeRecipient::Other);
    assert_eq!(t.bits(), 0x23);
    t.set_type(RequestTypeType::Rsvd);
    assert_eq!(t.request_type(), RequestTypeType::Rsvd);
}

#[test]
fn request_type_from_parts() {
    let t = RequestType::from_parts(
        RequestTypeDirection::DeviceToHost,
        RequestTypeType::Class,
        RequestTypeRecipient::Interface,
    );
    assert_eq!(t.bits(), 0xA1);
    assert_eq!(StandardDeviceRequest::SetFeature.code(), 3);
    assert_eq!(StandardDeviceRequest::GetConfiguration.code(), 8);
    assert_eq!(RequestTypeDirection::DeviceToHost.code(), 1);
    assert_eq!(RequestTypeType::Rsvd.code(), 3);
    assert_eq!(RequestTypeRecipient::Other.code(), 3);
}
