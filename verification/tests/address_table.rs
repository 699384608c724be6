use usb_host::device_addr::{DeviceAddressManager, DeviceDisconnectMask};
use usb_host::types::{DevInfo, PortInfo, UsbSpeed};

fn root() -> DevInfo {
    DevInfo::root_device(UsbSpeed::HighSpeed)
}

#[test]
fn first_address_is_one() {
    let mut m = DeviceAddressManager::<8>::new();
    let h = m.alloc_device_address(8, DevInfo::root_device(UsbSpeed::FullSpeed));
    assert_eq!(h.address(), 1);
    assert_eq!(h.max_packet_size(), 8);
    assert_eq!(h.dev_info(), DevInfo::root_device(UsbSpeed::FullSpeed));
}

#[test]
fn addresses_of_a_run_of_allocations_are_distinct_and_in_range() {
    let mut m = DeviceAddressManager::<5>::new();
    let mut seen = vec![];
    let first = m.alloc_device_address(64, root());
    seen.push(first.address());
    for port in 1..5u8 {
        assert!(m.has_free_address());
        let h = m.alloc_device_address(8, DevInfo::new(1, port, None, UsbSpeed::HighSpeed));
        assert!(h.address() >= 1 && h.address() <= 5);
        assert!(!seen.contains(&h.address()));
        seen.push(h.address());
    }
    assert_eq!(seen, vec![1, 2, 3, 4, 5]);
    assert!(!m.has_free_address());
}

#[test]
fn a_freed_address_is_handed_out_again_first() {
    let mut m = DeviceAddressManager::<4>::new();
    let a = m.alloc_device_address(64, root());
    let b = m.alloc_device_address(8, DevInfo::new(1, 1, None, UsbSpeed::HighSpeed));
    let c = m.alloc_device_address(8, DevInfo::new(1, 2, None, UsbSpeed::HighSpeed));
    assert_eq!((a.address(), b.address(), c.address()), (1, 2, 3));
    m.free_address(b);
    let d = m.alloc_device_address(8, DevInfo::new(1, 3, None, UsbSpeed::HighSpeed));
    assert_eq!(d.address(), 2);
}

#[test]
fn find_index_names_the_slot_of_a_port() {
    let mut m = DeviceAddressManager::<4>::new();
    m.alloc_device_address(64, root());
    m.alloc_device_address(8, DevInfo::new(1, 7, None, UsbSpeed::HighSpeed));
    assert_eq!(m.find_index(PortInfo::new(0x80, 0)), Some(0));
    assert_eq!(m.find_index(PortInfo::new(0x81, 7)), Some(1));
    assert_eq!(m.find_index(PortInfo::new(0x81, 6)), None);
    assert_eq!(m.find_index(PortInfo::new(0x01, 7)), None);
}

#[test]
fn free_all_names_every_live_address() {
    let mut m = DeviceAddressManager::<6>::new();
    m.alloc_device_address(64, root());
    let b = m.alloc_device_address(8, DevInfo::new(1, 1, None, UsbSpeed::HighSpeed));
    m.alloc_device_address(8, DevInfo::new(1, 2, None, UsbSpeed::HighSpeed));
    m.free_address(b);
    let mask = m.free_all_addresses();
    assert_eq!(mask.iter(), vec![1, 3]);
    assert!(m.has_free_address());
    let again = m.alloc_device_address(64, root());
    assert_eq!(again.address(), 1);
    assert_eq!(m.free_all_addresses().iter(), vec![1]);
}

#[test]
fn free_subtree_of_a_leaf_frees_the_leaf_only() {
    let mut m = DeviceAddressManager::<8>::new();
    m.alloc_device_address(64, root());
    m.alloc_device_address(8, DevInfo::new(1, 1, None, UsbSpeed::HighSpeed));
    m.alloc_device_address(8, DevInfo::new(1, 2, None, UsbSpeed::HighSpeed));
    assert!(m.accepts_free_subtree(PortInfo::new(0x81, 1)));
    let mask = m.free_subtree(PortInfo::new(0x81, 1));
    assert_eq!(mask.iter(), vec![2]);
    assert_eq!(m.find_index(PortInfo::new(0x81, 2)), Some(2));
    assert_eq!(m.find_index(PortInfo::new(0x80, 0)), Some(0));
    assert_eq!(m.find_index(PortInfo::new(0x81, 1)), None);
}

#[test]
fn free_subtree_of_a_nested_hub_frees_all_below_it() {
    let mut m = DeviceAddressManager::<8>::new();
    m.alloc_device_address(64, root());
    m.alloc_device_address(64, DevInfo::new(1, 3, None, UsbSpeed::HighSpeed));
    m.alloc_device_address(8, DevInfo::new(2, 2, Some((2, 2)), UsbSpeed::LowSpeed));
    m.alloc_device_address(8, DevInfo::new(1, 4, None, UsbSpeed::HighSpeed));
    let mask = m.free_subtree(PortInfo::new(0x81, 3));
    assert_eq!(mask.iter(), vec![2, 3]);
    assert_eq!(m.find_index(PortInfo::new(0x80, 0)), Some(0));
    assert_eq!(m.find_index(PortInfo::new(0x81, 4)), Some(3));
    assert_eq!(m.find_index(PortInfo::new(0x82, 2)), None);
}

#[test]
fn free_subtree_follows_three_levels() {
    let mut m = DeviceAddressManager::<8>::new();
    m.alloc_device_address(64, root());
    m.alloc_device_address(64, DevInfo::new(1, 1, None, UsbSpeed::HighSpeed));
    m.alloc_device_address(64, DevInfo::new(2, 1, None, UsbSpeed::HighSpeed));
    m.alloc_device_address(64, DevInfo::new(3, 1, None, UsbSpeed::HighSpeed));
    m.alloc_device_address(64, DevInfo::new(1, 2, None, UsbSpeed::HighSpeed));
    let mask = m.free_subtree(PortInfo::new(0x82, 1));
    assert_eq!(mask.iter(), vec![3, 4]);
    let mask = m.free_subtree(PortInfo::new(0x81, 1));
    assert_eq!(mask.iter(), vec![2]);
    assert_eq!(m.free_all_addresses().iter(), vec![1, 5]);
}

#[test]
fn free_subtree_of_an_unknown_port_frees_nothing() {
    let mut m = DeviceAddressManager::<8>::new();
    m.alloc_device_address(64, root());
    let mask = m.free_subtree(PortInfo::new(0x81, 9));
    assert_eq!(mask.iter(), Vec::<usize>::new());
    assert_eq!(m.find_index(PortInfo::new(0x80, 0)), Some(0));
}

#[test]
fn free_subtree_of_the_root_device_frees_all_that_hangs_below() {
    let mut m = DeviceAddressManager::<8>::new();
    m.alloc_device_address(64, root());
    m.alloc_device_address(8, DevInfo::new(1, 1, None, UsbSpeed::HighSpeed));
    m.alloc_device_address(8, DevInfo::new(2, 3, None, UsbSpeed::HighSpeed));
    let mask = m.free_subtree(PortInfo::new(0x80, 0));
    assert_eq!(mask.iter(), vec![1, 2, 3]);
    assert_eq!(m.find_index(PortInfo::new(0x81, 1)), None);
    assert_eq!(m.find_index(PortInfo::new(0x82, 3)), None);
    assert_eq!(m.free_all_addresses().iter(), Vec::<usize>::new());
    let again = m.alloc_device_address(64, root());
    assert_eq!(again.address(), 1);
}

#[test]
fn free_subtree_of_a_lone_root_device_frees_it() {
    let mut m = DeviceAddressManager::<4>::new();
    m.alloc_device_address(64, root());
    assert_eq!(m.free_subtree(PortInfo::new(0x80, 0)).iter(), vec![1]);
    assert!(m.has_free_address());
    assert_eq!(m.free_all_addresses().iter(), Vec::<usize>::new());
}

#[test]
fn accepts_free_subtree_turns_down_a_parent_without_a_slot() {
    let mut m = DeviceAddressManager::<2>::new();
    m.alloc_device_address(64, root());
    assert!(m.accepts_free_subtree(PortInfo::new(0x80, 0)));
    m.alloc_device_address(8, DevInfo::new(100, 1, None, UsbSpeed::HighSpeed));
    assert!(!m.accepts_free_subtree(PortInfo::new(0x80, 0)));
}

#[test]
fn mask_starts_empty_and_forgets_what_is_removed() {
    let mask = DeviceDisconnectMask::new();
    assert_eq!(mask.iter(), Vec::<usize>::new());
    let mut m = DeviceAddressManager::<8>::new();
    m.alloc_device_address(64, root());
    m.alloc_device_address(8, DevInfo::new(1, 1, None, UsbSpeed::HighSpeed));
    let mut mask = m.free_all_addresses();
    assert_eq!(mask.iter(), vec![1, 2]);
    mask.remove(1);
    assert_eq!(mask.iter(), vec![2]);
    mask.remove(5);
    assert_eq!(mask.iter(), vec![2]);
}
