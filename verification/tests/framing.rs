use evdev_sync::codes::{EV_KEY, EV_REL, EV_SYN, SYN_DROPPED, SYN_REPORT};
use evdev_sync::{Framer, InputEvent, SourceItem};

fn report() -> InputEvent {
    InputEvent::new(EV_SYN, SYN_REPORT, 0)
}

#[test]
fn a_report_closes_a_batch() {
    let mut framer = Framer::new();
    let x = InputEvent::new(EV_REL, 0, 3);
    let y = InputEvent::new(EV_REL, 1, -2);
    assert_eq!(framer.push(x), None);
    assert_eq!(framer.push(y), None);
    assert_eq!(framer.held(), 2);
    assert_eq!(framer.push(report()), Some(SourceItem::Batch(vec![x, y, report()])));
    assert_eq!(framer.held(), 0);
    assert_eq!(framer.push(report()), Some(SourceItem::Batch(vec![report()])));
}

#[test]
fn other_synchronization_events_belong_to_the_batch() {
    let mut framer = Framer::new();
    let mt = InputEvent::new(EV_SYN, 2, 0);
    assert_eq!(framer.push(mt), None);
    assert_eq!(framer.push(report()), Some(SourceItem::Batch(vec![mt, report()])));
}

#[test]
fn dropped_events_make_an_overflow_of_the_batch() {
    let mut framer = Framer::new();
    assert_eq!(framer.push(InputEvent::new(EV_KEY, 30, 1)), None);
    assert_eq!(framer.push(InputEvent::new(EV_SYN, SYN_DROPPED, 0)), None);
    assert_eq!(framer.held(), 0);
    assert_eq!(framer.push(InputEvent::new(EV_KEY, 31, 1)), None);
    assert_eq!(framer.held(), 0);
    assert_eq!(framer.push(report()), Some(SourceItem::Overflow));
    let fresh = InputEvent::new(EV_KEY, 32, 1);
    assert_eq!(framer.push(fresh), None);
    assert_eq!(framer.push(report()), Some(SourceItem::Batch(vec![fresh, report()])));
}
