use evdev_sync::codes::{
    ABS_MT_FIRST, ABS_MT_LAST, ABS_MT_SLOT, EV_ABS, EV_KEY, EV_LED, EV_MSC, EV_SW, EV_SYN,
    MAX_SLOTS, SYN_REPORT,
};
use evdev_sync::{AbsInfo, Capabilities, DeviceStateCache, InputEvent};

const ABS_X: u16 = 0;
const ABS_Y: u16 = 1;
const MT_X: u16 = 0x35;
const MT_Y: u16 = 0x36;

fn range(max: i32) -> AbsInfo {
    AbsInfo::new(0, 0, max, 0, 0, 0)
}

fn touchscreen() -> Capabilities {
    let mut caps = Capabilities::new();
    assert!(caps.add_key(30));
    assert!(caps.add_key(0x14a));
    assert!(caps.add_axis(ABS_X, range(4095)));
    assert!(caps.add_axis(ABS_Y, range(4095)));
    assert!(caps.add_axis(ABS_MT_SLOT, range(3)));
    assert!(caps.add_axis(MT_X, range(4095)));
    assert!(caps.add_axis(MT_Y, range(4095)));
    assert!(caps.add_switch(2));
    assert!(caps.add_led(0));
    assert!(caps.set_slots(4));
    caps
}

fn syn() -> InputEvent {
    InputEvent::new(EV_SYN, SYN_REPORT, 0)
}

#[test]
fn a_new_cache_is_empty() {
    let caps = touchscreen();
    let cache = DeviceStateCache::new(&caps);
    assert_eq!(cache.pressed_keys(), Vec::<u16>::new());
    assert_eq!(cache.active_switches(), Vec::<u16>::new());
    assert_eq!(cache.lit_leds(), Vec::<u16>::new());
    assert_eq!(cache.axis(ABS_X), Some(range(4095)));
    assert_eq!(cache.axis(0x40), None);
    assert_eq!(cache.slot_count(), 4);
    assert_eq!(cache.current_slot(), 0);
    assert_eq!(cache.slot_value(3, MT_X), Some(0));
    assert_eq!(cache.slot_value(4, MT_X), None);
    assert_eq!(cache.slot_value(0, ABS_MT_SLOT), None);
}

#[test]
fn apply_tracks_keys_switches_and_leds() {
    let caps = touchscreen();
    let mut cache = DeviceStateCache::new(&caps);
    cache.apply(&InputEvent::new(EV_KEY, 30, 1));
    cache.apply(&InputEvent::new(EV_KEY, 0x14a, 2));
    cache.apply(&InputEvent::new(EV_SW, 2, 1));
    cache.apply(&InputEvent::new(EV_LED, 0, 1));
    assert!(cache.key_pressed(30));
    assert!(cache.key_pressed(0x14a));
    assert!(!cache.key_pressed(31));
    assert!(cache.switch_active(2));
    assert!(cache.led_lit(0));
    assert_eq!(cache.pressed_keys(), vec![30, 0x14a]);

    cache.apply(&InputEvent::new(EV_KEY, 30, 0));
    cache.apply(&InputEvent::new(EV_SW, 2, 0));
    cache.apply(&InputEvent::new(EV_LED, 0, 0));
    assert_eq!(cache.pressed_keys(), vec![0x14a]);
    assert!(!cache.switch_active(2));
    assert!(!cache.led_lit(0));
}

#[test]
fn apply_stores_axis_values_as_they_come() {
    let caps = touchscreen();
    let mut cache = DeviceStateCache::new(&caps);
    cache.apply(&InputEvent::new(EV_ABS, ABS_X, 100_000));
    cache.apply(&InputEvent::new(EV_ABS, ABS_Y, -7));
    assert_eq!(cache.axis(ABS_X), Some(AbsInfo::new(100_000, 0, 4095, 0, 0, 0)));
    assert_eq!(cache.axis(ABS_Y), Some(AbsInfo::new(-7, 0, 4095, 0, 0, 0)));
}

#[test]
fn apply_ignores_what_it_does_not_cache() {
    let caps = touchscreen();
    let mut cache = DeviceStateCache::new(&caps);
    let before = cache.duplicate();
    cache.apply(&InputEvent::new(EV_MSC, 4, 458756));
    cache.apply(&syn());
    cache.apply(&InputEvent::new(EV_KEY, 0x300, 1));
    cache.apply(&InputEvent::new(EV_ABS, 0x40, 5));
    cache.apply(&InputEvent::new(EV_SW, 0x11, 1));
    cache.apply(&InputEvent::new(EV_LED, 0x10, 1));
    assert!(cache.equals(&before));
    assert!(!cache.key_pressed(0x300));
}

#[test]
fn slot_scoped_values_go_to_the_selected_slot() {
    let caps = touchscreen();
    let mut cache = DeviceStateCache::new(&caps);
    cache.apply(&InputEvent::new(EV_ABS, MT_X, 11));
    cache.apply(&InputEvent::new(EV_ABS, ABS_MT_SLOT, 2));
    cache.apply(&InputEvent::new(EV_ABS, MT_X, 22));
    cache.apply(&InputEvent::new(EV_ABS, MT_Y, 33));
    assert_eq!(cache.current_slot(), 2);
    assert_eq!(cache.slot_value(0, MT_X), Some(11));
    assert_eq!(cache.slot_value(2, MT_X), Some(22));
    assert_eq!(cache.slot_value(2, MT_Y), Some(33));
    assert_eq!(cache.slot_value(1, MT_X), Some(0));
    assert_eq!(cache.axis(MT_X), Some(range(4095)));

    cache.apply(&InputEvent::new(EV_ABS, ABS_MT_SLOT, 9));
    cache.apply(&InputEvent::new(EV_ABS, MT_X, 44));
    assert_eq!(cache.current_slot(), 9);
    assert_eq!(cache.slot_value(2, MT_X), Some(22));
    cache.apply(&InputEvent::new(EV_ABS, ABS_MT_SLOT, -1));
    cache.apply(&InputEvent::new(EV_ABS, MT_X, 55));
    assert_eq!(cache.current_slot(), -1);
    assert_eq!(cache.slot_value(0, MT_X), Some(11));
}

#[test]
fn without_slots_the_multitouch_axes_are_plain_axes() {
    let mut caps = Capabilities::new();
    assert!(caps.add_axis(MT_X, range(100)));
    let mut cache = DeviceStateCache::new(&caps);
    cache.apply(&InputEvent::new(EV_ABS, MT_X, 42));
    assert_eq!(cache.axis(MT_X), Some(AbsInfo::new(42, 0, 100, 0, 0, 0)));
    assert_eq!(cache.slot_value(0, MT_X), None);

    let mut moved = DeviceStateCache::new(&caps);
    moved.set_axis(MT_X, 7);
    assert_eq!(
        DeviceStateCache::diff(&cache, &moved, &caps),
        vec![InputEvent::new(EV_ABS, MT_X, 7), syn()]
    );
}

#[test]
fn diff_of_a_state_with_itself_is_the_report_alone() {
    let caps = touchscreen();
    let mut cache = DeviceStateCache::new(&caps);
    cache.set_key(30, true);
    cache.set_axis(ABS_X, 17);
    cache.set_axis(ABS_MT_SLOT, 3);
    cache.set_slot_value(1, MT_Y, 5);
    cache.set_switch(2, true);
    cache.set_led(0, true);
    let same = cache.duplicate();
    assert_eq!(DeviceStateCache::diff(&cache, &same, &caps), vec![syn()]);
    assert_eq!(DeviceStateCache::diff(&cache, &cache, &Capabilities::new()), vec![syn()]);
}

#[test]
fn diff_groups_keys_axes_switches_leds() {
    let caps = touchscreen();
    let mut old = DeviceStateCache::new(&caps);
    old.set_key(0x14a, true);
    old.set_led(0, true);
    let mut new = DeviceStateCache::new(&caps);
    new.set_key(30, true);
    new.set_axis(ABS_Y, 9);
    new.set_axis(ABS_X, 8);
    new.set_switch(2, true);
    assert_eq!(
        DeviceStateCache::diff(&old, &new, &caps),
        vec![
            InputEvent::new(EV_KEY, 30, 1),
            InputEvent::new(EV_KEY, 0x14a, 0),
            InputEvent::new(EV_ABS, ABS_X, 8),
            InputEvent::new(EV_ABS, ABS_Y, 9),
            InputEvent::new(EV_SW, 2, 1),
            InputEvent::new(EV_LED, 0, 0),
            syn(),
        ]
    );
}

#[test]
fn diff_selects_each_slot_it_corrects() {
    let caps = touchscreen();
    let mut old = DeviceStateCache::new(&caps);
    old.set_axis(ABS_MT_SLOT, 1);
    old.set_slot_value(1, MT_X, 10);
    let mut new = DeviceStateCache::new(&caps);
    new.set_axis(ABS_MT_SLOT, 1);
    new.set_slot_value(0, MT_Y, 3);
    new.set_slot_value(1, MT_X, 12);
    new.set_slot_value(1, MT_Y, 13);
    new.set_slot_value(3, MT_X, 30);
    let events = DeviceStateCache::diff(&old, &new, &caps);
    assert_eq!(
        events,
        vec![
            InputEvent::new(EV_ABS, ABS_MT_SLOT, 0),
            InputEvent::new(EV_ABS, MT_Y, 3),
            InputEvent::new(EV_ABS, ABS_MT_SLOT, 1),
            InputEvent::new(EV_ABS, MT_X, 12),
            InputEvent::new(EV_ABS, MT_Y, 13),
            InputEvent::new(EV_ABS, ABS_MT_SLOT, 3),
            InputEvent::new(EV_ABS, MT_X, 30),
            InputEvent::new(EV_ABS, ABS_MT_SLOT, 1),
            syn(),
        ]
    );
    let mut replay = old.duplicate();
    replay.apply_all(&events);
    assert!(replay.equals(&new));
}

#[test]
fn diff_reports_a_change_of_the_selected_slot_alone() {
    let caps = touchscreen();
    let old = DeviceStateCache::new(&caps);
    let mut new = DeviceStateCache::new(&caps);
    new.set_axis(ABS_MT_SLOT, 2);
    assert_eq!(
        DeviceStateCache::diff(&old, &new, &caps),
        vec![InputEvent::new(EV_ABS, ABS_MT_SLOT, 2), syn()]
    );
}

#[test]
fn diff_skips_the_selection_of_the_selected_slot() {
    let caps = touchscreen();
    let mut old = DeviceStateCache::new(&caps);
    old.set_axis(ABS_MT_SLOT, 2);
    let mut new = old.duplicate();
    new.set_slot_value(2, MT_X, 77);
    assert_eq!(
        DeviceStateCache::diff(&old, &new, &caps),
        vec![InputEvent::new(EV_ABS, MT_X, 77), syn()]
    );
}

#[test]
fn diff_passes_over_what_the_device_does_not_support() {
    let caps = touchscreen();
    let old = DeviceStateCache::new(&caps);
    let mut new = DeviceStateCache::new(&caps);
    new.set_key(31, true);
    new.set_axis(2, 5);
    new.set_switch(3, true);
    new.set_led(1, true);
    new.set_slot_value(0, ABS_MT_LAST, 1);
    let events = DeviceStateCache::diff(&old, &new, &caps);
    assert_eq!(events, vec![syn()]);
    let mut replay = old.duplicate();
    replay.apply_all(&events);
    assert!(!replay.equals(&new));
}

#[test]
fn the_batch_from_the_empty_state_builds_the_state() {
    let caps = touchscreen();
    let mut state = DeviceStateCache::new(&caps);
    state.set_key(30, true);
    state.set_key(0x14a, true);
    state.set_axis(ABS_X, 1000);
    state.set_axis(ABS_Y, -1);
    state.set_switch(2, true);
    state.set_led(0, true);
    state.set_slot_value(0, MT_X, 1);
    state.set_slot_value(2, MT_Y, 2);
    state.set_slot_value(3, MT_X, 3);
    state.set_axis(ABS_MT_SLOT, 3);

    let empty = DeviceStateCache::new(&caps);
    let events = DeviceStateCache::diff(&empty, &state, &caps);
    assert_eq!(events.last(), Some(&syn()));
    let mut built = DeviceStateCache::new(&caps);
    built.apply_all(&events);
    assert!(built.equals(&state));
}

#[test]
fn set_axis_info_replaces_the_calibration() {
    let caps = touchscreen();
    let mut cache = DeviceStateCache::new(&caps);
    cache.set_axis_info(ABS_X, AbsInfo::new(5, -10, 10, 1, 2, 3));
    assert_eq!(cache.axis(ABS_X), Some(AbsInfo::new(5, -10, 10, 1, 2, 3)));
    cache.set_axis_info(MT_X, AbsInfo::new(5, -10, 10, 1, 2, 3));
    assert_eq!(cache.axis(MT_X), Some(AbsInfo::new(0, -10, 10, 1, 2, 3)));
    let before = cache.duplicate();
    cache.set_axis_info(0x40, AbsInfo::new(1, 1, 1, 1, 1, 1));
    assert!(cache.equals(&before));
}

#[test]
fn set_slot_value_needs_a_slot_and_a_slot_scoped_axis() {
    let caps = touchscreen();
    let mut cache = DeviceStateCache::new(&caps);
    let before = cache.duplicate();
    cache.set_slot_value(4, MT_X, 1);
    cache.set_slot_value(0, ABS_MT_SLOT, 1);
    cache.set_slot_value(0, ABS_MT_LAST + 1, 1);
    assert!(cache.equals(&before));
    cache.set_slot_value(3, ABS_MT_FIRST, 8);
    cache.set_slot_value(3, ABS_MT_LAST, 9);
    assert_eq!(cache.slot_value(3, ABS_MT_FIRST), Some(8));
    assert_eq!(cache.slot_value(3, ABS_MT_LAST), Some(9));
    assert!(!cache.equals(&before));
}

#[test]
fn equal_caches_are_told_from_unequal_ones() {
    let caps = touchscreen();
    let a = DeviceStateCache::new(&caps);
    let mut b = DeviceStateCache::new(&caps);
    assert!(a.equals(&b));
    b.set_led(0, true);
    assert!(!a.equals(&b));
    let other = DeviceStateCache::new(&Capabilities::new());
    assert!(!a.equals(&other));
}

#[test]
fn capabilities_refuse_codes_outside_the_namespaces() {
    let mut caps = Capabilities::new();
    assert!(!caps.add_key(0x300));
    assert!(!caps.add_axis(0x40, range(1)));
    assert!(!caps.add_switch(0x11));
    assert!(!caps.add_led(0x10));
    assert!(caps.add_key(0x2ff));
    assert!(caps.supports_key(0x2ff));
    assert!(!caps.supports_key(0x300));
    assert!(!caps.supports_switch(0));
    assert!(!caps.supports_led(0));
    assert!(caps.add_switch(0x10));
    assert!(caps.add_led(0x0f));
    assert!(caps.supports_switch(0x10));
    assert!(caps.supports_led(0x0f));
    assert_eq!(caps.axis(ABS_X), None);
    assert!(caps.add_axis(ABS_X, range(9)));
    assert_eq!(caps.axis(ABS_X), Some(range(9)));
}

#[test]
fn capabilities_refuse_slots_without_the_slot_axis() {
    let mut caps = Capabilities::new();
    assert!(!caps.set_slots(2));
    assert_eq!(caps.slots(), 0);
    assert!(caps.set_slots(0));
    assert!(caps.add_axis(ABS_MT_SLOT, range(1)));
    assert!(!caps.set_slots(MAX_SLOTS + 1));
    assert_eq!(caps.slots(), 0);
    assert!(caps.set_slots(MAX_SLOTS));
    assert_eq!(caps.slots(), MAX_SLOTS);
    let cache = DeviceStateCache::new(&caps);
    assert_eq!(cache.slot_count(), MAX_SLOTS);
    assert_eq!(cache.slot_value(MAX_SLOTS - 1, ABS_MT_LAST), Some(0));
}

#[test]
fn the_slot_axis_announces_the_slots() {
    let mut caps = Capabilities::new();
    assert_eq!(caps.detect_slots(), 0);
    assert!(caps.add_axis(ABS_MT_SLOT, range(9)));
    assert_eq!(caps.detect_slots(), 10);
    assert_eq!(caps.slots(), 10);
    assert!(caps.add_axis(ABS_MT_SLOT, range(1023)));
    assert_eq!(caps.detect_slots(), 1024);
    assert!(caps.add_axis(ABS_MT_SLOT, range(1024)));
    assert_eq!(caps.detect_slots(), 0);
    assert!(caps.add_axis(ABS_MT_SLOT, range(-1)));
    assert_eq!(caps.detect_slots(), 0);
    assert!(caps.add_axis(ABS_MT_SLOT, range(i32::MAX)));
    assert_eq!(caps.detect_slots(), 0);
    assert_eq!(caps.slots(), 0);
}
