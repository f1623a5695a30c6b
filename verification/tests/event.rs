use core_graphics2::event::{
    checked_event_mask, event_mask, event_mask_bit, tap_callback_result, EVENT_MASK_BITS,
};
use core_graphics2::event_types::{kCGEventMaskForAllEvents, CGEventType};
use core_graphics2::handle::{Address, Handle, NativeCall};

fn address(raw: usize) -> Address {
    Address::new(raw).expect("a non-null address")
}

#[test]
fn mask_bit_is_one_shifted_by_the_code() {
    assert_eq!(event_mask_bit(CGEventType::Null), Some(1));
    assert_eq!(event_mask_bit(CGEventType::LeftMouseDown), Some(1 << 1));
    assert_eq!(event_mask_bit(CGEventType::KeyDown), Some(1 << 10));
    assert_eq!(event_mask_bit(CGEventType::ScrollWheel), Some(1 << 22));
    assert_eq!(event_mask_bit(CGEventType::OtherMouseDragged), Some(1 << 27));
}

#[test]
fn tap_disabled_events_have_no_mask_bit() {
    assert_eq!(EVENT_MASK_BITS, 64);
    assert_eq!(event_mask_bit(CGEventType::TapDisabledByTimeout), None);
    assert_eq!(event_mask_bit(CGEventType::TapDisabledByUserInput), None);
}

#[test]
fn mask_of_no_events_is_empty() {
    assert_eq!(event_mask(&Vec::new()), 0);
    assert_eq!(checked_event_mask(&Vec::new()), Some(0));
}

#[test]
fn mask_holds_the_bits_of_its_events() {
    let events = vec![CGEventType::KeyDown, CGEventType::KeyUp, CGEventType::FlagsChanged];
    assert_eq!(event_mask(&events), (1 << 10) | (1 << 11) | (1 << 12));
    assert_eq!(checked_event_mask(&events), Some(0x1c00));
}

#[test]
fn mask_does_not_count_an_event_twice() {
    let events = vec![CGEventType::MouseMoved, CGEventType::MouseMoved, CGEventType::Null];
    assert_eq!(event_mask(&events), (1 << 5) | 1);
}

#[test]
fn mask_is_within_the_mask_for_all_events() {
    let events = vec![CGEventType::LeftMouseUp, CGEventType::TabletProximity];
    let mask = event_mask(&events);
    assert_eq!(mask, (1 << 2) | (1 << 24));
    assert_eq!(mask & kCGEventMaskForAllEvents, mask);
    assert_eq!(kCGEventMaskForAllEvents, !0);
}

#[test]
fn checked_mask_refuses_events_without_a_bit() {
    let events = vec![CGEventType::KeyDown, CGEventType::TapDisabledByTimeout];
    assert_eq!(checked_event_mask(&events), None);
    let events = vec![CGEventType::TapDisabledByUserInput];
    assert_eq!(checked_event_mask(&events), None);
}

#[test]
fn tap_callback_without_replacement_returns_the_event_shown() {
    let (event, _retain) = Handle::wrap_borrowed(address(0x1000));
    let (raw, call) = tap_callback_result(event, None);
    assert_eq!(raw, 0x1000);
    assert_eq!(call, None);
}

#[test]
fn tap_callback_with_replacement_returns_it_and_releases_the_event_shown() {
    let (event, _retain) = Handle::wrap_borrowed(address(0x1000));
    let replacement = Handle::wrap_owned(address(0x2000));
    let (raw, call) = tap_callback_result(event, Some(replacement));
    assert_eq!(raw, 0x2000);
    assert_eq!(call, Some(NativeCall::Release(address(0x1000))));
}
