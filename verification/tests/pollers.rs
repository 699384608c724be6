use usb_host::driver::{DispatcherWait, USBDeviceDispatcher};
use usb_host::futures::{
    Either2, PollNext, PollRound, PollerError, SelectNext, SelectPin2, SlotState,
    StaticUnpinPoller,
};

fn round() -> PollRound {
    PollRound { next: 0, polling: None, occupied_count: 0, pending_found: false }
}

#[test]
fn insert_takes_the_lowest_empty_slot() {
    let mut p = StaticUnpinPoller::<3>::new();
    assert!(p.is_empty());
    assert_eq!(p.len(), 0);
    assert_eq!(p.insert(), Ok(0));
    assert_eq!(p.insert(), Ok(1));
    assert_eq!(p.len(), 2);
    assert!(!p.is_empty());
    assert_eq!(p.insert(), Ok(2));
    assert_eq!(p.insert(), Err(PollerError::IndexOutOfBounds));
    assert_eq!(p.len(), 3);
}

#[test]
fn replace_wants_an_empty_slot() {
    let mut p = StaticUnpinPoller::<2>::new();
    assert_eq!(p.replace(2), Err(PollerError::IndexOutOfBounds));
    assert_eq!(p.replace(1), Ok(()));
    assert_eq!(p.replace(1), Err(PollerError::SlotOccupied));
    assert_eq!(p.len(), 1);
    assert_eq!(p.insert(), Ok(0));
}

#[test]
fn a_round_without_tasks_has_nothing_to_poll() {
    let mut p = StaticUnpinPoller::<4>::new();
    let mut r = round();
    assert_eq!(p.poll_next(&mut r, None), PollNext::ReadyNone);
}

#[test]
fn a_round_polls_the_occupied_slots_in_order() {
    let mut p = StaticUnpinPoller::<4>::new();
    p.replace(1).unwrap();
    p.replace(3).unwrap();
    let mut r = round();
    assert_eq!(p.poll_next(&mut r, None), PollNext::PollSlot(1));
    assert_eq!(p.poll_next(&mut r, Some(false)), PollNext::PollSlot(3));
    assert_eq!(p.poll_next(&mut r, Some(false)), PollNext::Pending);
    assert_eq!(p.len(), 2);
    let mut r = round();
    assert_eq!(p.poll_next(&mut r, None), PollNext::PollSlot(1));
    assert_eq!(p.poll_next(&mut r, Some(false)), PollNext::PollSlot(3));
    assert_eq!(p.poll_next(&mut r, Some(true)), PollNext::Ready(3));
    assert_eq!(p.len(), 1);
    assert_eq!(p.replace(3), Ok(()));
    let mut r = round();
    assert_eq!(p.poll_next(&mut r, None), PollNext::PollSlot(1));
    assert_eq!(p.poll_next(&mut r, Some(true)), PollNext::Ready(1));
    assert_eq!(p.insert(), Ok(0));
}

#[test]
fn the_selector_polls_the_first_before_the_second() {
    let mut s = SelectPin2::with_futures();
    assert_eq!(s.poll(None), SelectNext::Poll(Either2::First));
    assert_eq!(s.poll(Some((Either2::First, false))), SelectNext::Poll(Either2::Second));
    assert_eq!(s.poll(Some((Either2::Second, false))), SelectNext::Pending);
    assert_eq!(s.poll(None), SelectNext::Poll(Either2::First));
    assert_eq!(s.poll(Some((Either2::First, true))), SelectNext::Ready(Either2::First));
    assert_eq!(s.first, SlotState::Empty);
    assert_eq!(s.poll(None), SelectNext::Poll(Either2::Second));
    assert_eq!(s.poll(Some((Either2::Second, true))), SelectNext::Ready(Either2::Second));
    assert_eq!(s.poll(None), SelectNext::Pending);
}

#[test]
fn the_selector_takes_a_task_into_an_empty_slot_only() {
    let mut s = SelectPin2::new();
    assert_eq!(s.poll(None), SelectNext::Pending);
    assert_eq!(s.insert_fut2(), Ok(()));
    assert_eq!(s.insert_fut2(), Err(PollerError::SlotOccupied));
    assert_eq!(s.poll(None), SelectNext::Poll(Either2::Second));
    assert_eq!(s.insert_fut1(), Ok(()));
    assert_eq!(s.insert_fut1(), Err(PollerError::SlotOccupied));
    assert_eq!(s, SelectPin2::with_futures());
}

#[test]
fn the_dispatcher_turns_devices_down_when_it_is_full() {
    let mut d = USBDeviceDispatcher::<2>::new();
    assert_eq!(d.run(), DispatcherWait::Device);
    assert_eq!(d.insert_new_device(false), None);
    assert_eq!(d.run(), DispatcherWait::Device);
    assert_eq!(d.insert_new_device(true), Some(0));
    assert_eq!(d.run(), DispatcherWait::DeviceOrTask);
    assert_eq!(d.insert_new_device(true), Some(1));
    assert_eq!(d.insert_new_device(true), None);
    let mut r = round();
    assert_eq!(d.poll_next(&mut r, None), PollNext::PollSlot(0));
    assert_eq!(d.poll_next(&mut r, Some(true)), PollNext::Ready(0));
    assert_eq!(d.insert_new_device(true), Some(0));
}
