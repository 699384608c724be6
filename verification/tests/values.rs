use usb_host::bus::{BusWrap, Event};
use usb_host::consts::UsbBaseClass;
use usb_host::descriptor::hub::{HubPortFeature, HubPortStatus, HubPortStatusChange};
use usb_host::errors::{ParsingError, UsbHostError};
use usb_host::types::{
    Bcd16, DataTog, DevInfo, EndpointAddress, EndpointDirection, EndpointType, Pid, PortInfo,
    UsbSpeed,
};

#[test]
fn bcd_digits_come_most_significant_first() {
    assert_eq!(Bcd16(0x0210).to_digits(), [0, 2, 1, 0]);
    assert_eq!(Bcd16(0x9A3F).to_digits(), [9, 10, 3, 15]);
    assert!(Bcd16::is_valid(0x0210));
    assert!(Bcd16::is_valid(0x9999));
    assert!(!Bcd16::is_valid(0x0A00));
    assert!(!Bcd16::is_valid(0x000F));
    assert_eq!(Bcd16::from_le_bytes([0x10, 0x02]), Bcd16(0x0210));
    assert_eq!(Bcd16::default(), Bcd16(0));
}

#[test]
fn pid_codes_round_trip() {
    assert_eq!(Pid::try_from(0b1101), Ok(Pid::SETUP));
    assert_eq!(Pid::try_from(0b0110), Ok(Pid::NYET));
    assert_eq!(Pid::try_from(0b0000), Ok(Pid::Rsvd));
    assert_eq!(Pid::try_from(0b1100), Err(()));
    assert_eq!(Pid::try_from(16), Err(()));
    for code in 0..16u8 {
        if let Ok(p) = Pid::try_from(code) {
            assert_eq!(p.code(), code);
        }
    }
}

#[test]
fn class_codes_round_trip() {
    assert_eq!(UsbBaseClass::try_from(0x09), Ok(UsbBaseClass::Hub));
    assert_eq!(UsbBaseClass::try_from(0x03), Ok(UsbBaseClass::HID));
    assert_eq!(UsbBaseClass::try_from(0x04), Err(()));
    assert_eq!(UsbBaseClass::try_from(0x3C), Ok(UsbBaseClass::I3C));
    assert_eq!(UsbBaseClass::Hub.into(), 9);
    assert_eq!(UsbBaseClass::VendorSpecific.into(), 0xFF);
    for code in 0..=255u8 {
        if let Ok(c) = UsbBaseClass::try_from(code) {
            assert_eq!(c.into(), code);
        }
    }
}

#[test]
fn speeds_and_toggles() {
    assert!(UsbSpeed::LowSpeed.is_classic());
    assert!(UsbSpeed::FullSpeed.is_classic());
    assert!(!UsbSpeed::HighSpeed.is_classic());
    let mut t = DataTog::DATA0;
    t.next();
    assert_eq!(t, DataTog::DATA1);
    t.next();
    assert_eq!(t, DataTog::DATA0);
    assert_eq!(EndpointType::Interrupt.code(), 3);
    assert_eq!(EndpointType::Control.code(), 0);
}

#[test]
fn port_info_keeps_the_parent_in_seven_bits() {
    let empty = PortInfo::invalid();
    assert!(empty.is_empty());
    assert_eq!(empty.parent_addr(), None);
    let p = PortInfo::new(0x85, 3);
    assert!(!p.is_empty());
    assert_eq!(p.parent_addr(), Some(5));
    assert_eq!(p.port(), 3);
    assert!(PortInfo::new(0x05, 3).is_empty());
}

#[test]
fn dev_info_constructors() {
    let root = DevInfo::root_device(UsbSpeed::FullSpeed);
    assert_eq!(root.port().parent_addr(), Some(0));
    assert_eq!(root.port().port(), 0);
    assert_eq!(root.transaction_translator(), None);
    assert_eq!(root.speed(), UsbSpeed::FullSpeed);
    let d = DevInfo::new(2, 4, Some((1, 3)), UsbSpeed::LowSpeed);
    assert_eq!(d.port(), PortInfo::new(0x82, 4));
    assert_eq!(d.transaction_translator(), Some((1, 3)));
    let e = DevInfo::empty();
    assert!(e.port().is_empty());
    assert_eq!(e.speed(), UsbSpeed::LowSpeed);
}

#[test]
fn endpoint_address_from_the_descriptor_byte() {
    assert_eq!(
        EndpointAddress::from_byte(0x81),
        EndpointAddress { number: 1, direction: EndpointDirection::In }
    );
    assert_eq!(
        EndpointAddress::from_byte(0x02),
        EndpointAddress { number: 2, direction: EndpointDirection::Out }
    );
    assert_eq!(EndpointAddress::from_byte(0xFF).number, 15);
}

#[test]
fn port_status_bits() {
    let s = HubPortStatus::from(0x0303);
    assert!(s.connected());
    assert!(s.enabled());
    assert!(!s.suspended());
    assert!(!s.over_current());
    assert!(!s.reset());
    assert!(s.power());
    assert!(s.low_speed());
    assert!(!s.high_speed());
    assert!(!s.test_mode());
    assert!(!s.indicator());
    assert_eq!(s.speed(), UsbSpeed::LowSpeed);
    assert_eq!(HubPortStatus::from(0x0400).speed(), UsbSpeed::HighSpeed);
    assert_eq!(HubPortStatus::from(0x0600).speed(), UsbSpeed::HighSpeed);
    assert_eq!(HubPortStatus::from(0x0100).speed(), UsbSpeed::FullSpeed);
    assert!(HubPortStatus::from(0x1800).indicator());
    assert!(HubPortStatus::from(0x1800).test_mode());
    assert!(HubPortStatus::from(0x001C).reset());
    assert!(HubPortStatus::from(0x001C).over_current());
    assert!(HubPortStatus::from(0x001C).suspended());
    let c = HubPortStatusChange::from(0x0011);
    assert!(c.connection());
    assert!(c.reset());
    assert!(!c.enable());
    assert!(!c.suspend());
    assert!(!c.over_current());
    assert!(HubPortStatusChange::from(0x000E).enable());
    assert_eq!(HubPortFeature::Power.into(), 8);
    assert_eq!(HubPortFeature::ChangeReset.into(), 20);
    assert_eq!(HubPortFeature::Indicator.into(), 22);
}

#[test]
fn parsing_errors_wrap_as_host_errors() {
    assert_eq!(
        ParsingError::Incomplete.into(),
        UsbHostError::ParsingError(ParsingError::Incomplete)
    );
}

#[test]
fn attach_is_followed_by_reset_and_settling() {
    let bus = BusWrap::new();
    let r = bus.poll(Event::DeviceAttach);
    assert!(r.reset);
    assert_eq!(r.settle_ms, 500);
    assert_eq!(r.event, Event::DeviceAttach);
    for e in [Event::DeviceDetach, Event::Suspend, Event::Resume] {
        let r = bus.poll(e);
        assert!(!r.reset);
        assert_eq!(r.settle_ms, 0);
        assert_eq!(r.event, e);
    }
    assert!(bus.wait_until_detach(Event::DeviceDetach));
    assert!(!bus.wait_until_detach(Event::DeviceAttach));
    assert!(!bus.wait_until_detach(Event::Resume));
}
