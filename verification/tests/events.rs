use evdev_sync::codes::{
    EV_ABS, EV_FF, EV_FF_STATUS, EV_KEY, EV_LED, EV_MSC, EV_PWR, EV_REL, EV_REP, EV_SND, EV_SW,
    EV_SYN, EV_UINPUT,
};
use evdev_sync::{
    AbsAxisEvent, AbsAxisType, AbsInfo, EnumParseError, EvdevEvent, FFEvent, FFStatusEvent,
    FFStatusType, FFType, InputEvent, InputEventKind, KeyEvent, KeyType, LedEvent, LedType,
    MiscEvent, MiscType, OtherEvent, OtherType, PowerEvent, PowerType, RawEvent, RelAxisEvent,
    RelAxisType, RepeatEvent, RepeatType, SoundEvent, SoundType, SwitchEvent, SwitchType,
    SynchronizationEvent, SynchronizationType, TimeVal, UInputEvent, UInputType, UinputAbsSetup,
};

fn raw(type_: u16, code: u16, value: i32) -> RawEvent {
    RawEvent { time: TimeVal { tv_sec: 0, tv_usec: 0 }, type_, code, value }
}

#[test]
fn new_sorts_an_event_by_its_type() {
    assert_eq!(
        InputEvent::new(EV_SYN, 0, 0),
        InputEvent::Synchronization(SynchronizationEvent(raw(EV_SYN, 0, 0)))
    );
    assert_eq!(InputEvent::new(EV_KEY, 30, 1), InputEvent::Key(KeyEvent(raw(EV_KEY, 30, 1))));
    assert_eq!(
        InputEvent::new(EV_REL, 1, -5),
        InputEvent::RelAxis(RelAxisEvent(raw(EV_REL, 1, -5)))
    );
    assert_eq!(
        InputEvent::new(EV_ABS, 0, 512),
        InputEvent::AbsAxis(AbsAxisEvent(raw(EV_ABS, 0, 512)))
    );
    assert_eq!(InputEvent::new(EV_MSC, 4, 9), InputEvent::Misc(MiscEvent(raw(EV_MSC, 4, 9))));
    assert_eq!(InputEvent::new(EV_SW, 0, 1), InputEvent::Switch(SwitchEvent(raw(EV_SW, 0, 1))));
    assert_eq!(InputEvent::new(EV_LED, 1, 1), InputEvent::Led(LedEvent(raw(EV_LED, 1, 1))));
    assert_eq!(InputEvent::new(EV_SND, 2, 1), InputEvent::Sound(SoundEvent(raw(EV_SND, 2, 1))));
    assert_eq!(
        InputEvent::new(EV_FF, 0x50, 1),
        InputEvent::ForceFeedback(FFEvent(raw(EV_FF, 0x50, 1)))
    );
    assert_eq!(
        InputEvent::new(EV_FF_STATUS, 1, 1),
        InputEvent::ForceFeedbackStatus(FFStatusEvent(raw(EV_FF_STATUS, 1, 1)))
    );
    assert_eq!(
        InputEvent::new(EV_UINPUT, 1, 0),
        InputEvent::UInput(UInputEvent(raw(EV_UINPUT, 1, 0)))
    );
    assert_eq!(
        InputEvent::new(EV_REP, 0, 250),
        InputEvent::Repeat(RepeatEvent(raw(EV_REP, 0, 250)))
    );
    assert_eq!(InputEvent::new(EV_PWR, 0, 1), InputEvent::Power(PowerEvent(raw(EV_PWR, 0, 1))));
}

#[test]
fn new_carries_types_without_a_kind_as_other() {
    assert_eq!(InputEvent::new(0x1f, 7, 8), InputEvent::Other(OtherEvent(raw(0x1f, 7, 8))));
    assert_eq!(
        InputEvent::new(0xffff, 0xffff, i32::MIN),
        InputEvent::Other(OtherEvent(raw(0xffff, 0xffff, i32::MIN)))
    );
}

#[test]
fn from_raw_keeps_the_raw_event() {
    let stamped = RawEvent {
        time: TimeVal { tv_sec: 1_700_000_000, tv_usec: 999_999 },
        type_: EV_KEY,
        code: 57,
        value: 2,
    };
    let event = InputEvent::from_raw(stamped);
    assert_eq!(event, InputEvent::Key(KeyEvent(stamped)));
    assert_eq!(event.as_raw(), stamped);
    assert_eq!(event.timestamp(), TimeVal { tv_sec: 1_700_000_000, tv_usec: 999_999 });
    assert_eq!(event.event_type(), EV_KEY);
    assert_eq!(event.code(), 57);
    assert_eq!(event.value(), 2);
    assert_eq!(
        InputEvent::new_at(stamped.time, EV_KEY, 57, 2),
        InputEvent::from_raw(stamped)
    );
}

#[test]
fn kind_pairs_the_event_with_its_code() {
    let event = InputEvent::new(EV_KEY, 30, 1);
    match event.kind() {
        InputEventKind::Key(ev, KeyType(30)) => assert_eq!(ev, KeyEvent(raw(EV_KEY, 30, 1))),
        other => panic!("not the key: {:?}", other),
    }
    assert_eq!(
        InputEvent::new(EV_SYN, 3, 0).kind(),
        InputEventKind::Synchronization(
            SynchronizationEvent(raw(EV_SYN, 3, 0)),
            SynchronizationType(3)
        )
    );
    assert_eq!(
        InputEvent::new(EV_REL, 8, 1).kind(),
        InputEventKind::RelAxis(RelAxisEvent(raw(EV_REL, 8, 1)), RelAxisType(8))
    );
    assert_eq!(
        InputEvent::new(EV_ABS, 1, 2).kind(),
        InputEventKind::AbsAxis(AbsAxisEvent(raw(EV_ABS, 1, 2)), AbsAxisType(1))
    );
    assert_eq!(
        InputEvent::new(EV_MSC, 4, 2).kind(),
        InputEventKind::Misc(MiscEvent(raw(EV_MSC, 4, 2)), MiscType(4))
    );
    assert_eq!(
        InputEvent::new(EV_SW, 5, 1).kind(),
        InputEventKind::Switch(SwitchEvent(raw(EV_SW, 5, 1)), SwitchType(5))
    );
    assert_eq!(
        InputEvent::new(EV_LED, 2, 1).kind(),
        InputEventKind::Led(LedEvent(raw(EV_LED, 2, 1)), LedType(2))
    );
    assert_eq!(
        InputEvent::new(EV_SND, 1, 1).kind(),
        InputEventKind::Sound(SoundEvent(raw(EV_SND, 1, 1)), SoundType(1))
    );
    assert_eq!(
        InputEvent::new(EV_FF, 0x51, 1).kind(),
        InputEventKind::ForceFeedback(FFEvent(raw(EV_FF, 0x51, 1)), FFType(0x51))
    );
    assert_eq!(
        InputEvent::new(EV_FF_STATUS, 1, 0).kind(),
        InputEventKind::ForceFeedbackStatus(
            FFStatusEvent(raw(EV_FF_STATUS, 1, 0)),
            FFStatusType(1)
        )
    );
    assert_eq!(
        InputEvent::new(EV_UINPUT, 2, 0).kind(),
        InputEventKind::UInput(UInputEvent(raw(EV_UINPUT, 2, 0)), UInputType(2))
    );
    assert_eq!(
        InputEvent::new(EV_REP, 1, 33).kind(),
        InputEventKind::Repeat(RepeatEvent(raw(EV_REP, 1, 33)), RepeatType(1))
    );
    assert_eq!(
        InputEvent::new(EV_PWR, 0, 1).kind(),
        InputEventKind::Power(PowerEvent(raw(EV_PWR, 0, 1)), PowerType(0))
    );
    assert_eq!(
        InputEvent::new(0x1f, 1, 33).kind(),
        InputEventKind::Other(OtherEvent(raw(0x1f, 1, 33)), OtherType(1))
    );
    assert_eq!(
        InputEvent::Repeat(RepeatEvent::new(RepeatType(1), 33)).kind(),
        InputEventKind::Repeat(RepeatEvent(raw(EV_REP, 1, 33)), RepeatType(1))
    );
    assert_eq!(
        InputEvent::Power(PowerEvent::new(PowerType(0), 1)).kind(),
        InputEventKind::Power(PowerEvent(raw(EV_PWR, 0, 1)), PowerType(0))
    );
}

#[test]
fn events_of_a_kind_answer_for_their_fields() {
    let key = KeyEvent::new(KeyType(30), 1);
    assert_eq!(key.0, raw(EV_KEY, 30, 1));
    assert_eq!(key.kind(), KeyType(30));
    assert_eq!(key.event_type(), EV_KEY);
    assert_eq!(key.code(), 30);
    assert_eq!(key.value(), 1);
    assert_eq!(key.timestamp(), TimeVal { tv_sec: 0, tv_usec: 0 });

    let axis = AbsAxisEvent::new(AbsAxisType(0x35), -40);
    assert_eq!(axis.0, raw(EV_ABS, 0x35, -40));
    assert_eq!(axis.kind(), AbsAxisType(0x35));
    assert_eq!(InputEvent::AbsAxis(axis).value(), -40);

    let other = OtherEvent(raw(0x1f, 3, 4));
    assert_eq!(other.kind(), OtherType(3));
    assert_eq!(other.event_type(), 0x1f);
    assert_eq!(InputEvent::Other(other).code(), 3);

    assert_eq!(SynchronizationEvent::new(SynchronizationType(0), 0).event_type(), EV_SYN);
    assert_eq!(RelAxisEvent::new(RelAxisType(0), 1).event_type(), EV_REL);
    assert_eq!(MiscEvent::new(MiscType(0), 1).event_type(), EV_MSC);
    assert_eq!(SwitchEvent::new(SwitchType(0), 1).event_type(), EV_SW);
    assert_eq!(LedEvent::new(LedType(0), 1).event_type(), EV_LED);
    assert_eq!(SoundEvent::new(SoundType(0), 1).event_type(), EV_SND);
    assert_eq!(RepeatEvent::new(RepeatType(0), 1).event_type(), EV_REP);
    assert_eq!(FFEvent::new(FFType(0), 1).event_type(), EV_FF);
    assert_eq!(PowerEvent::new(PowerType(0), 1).event_type(), EV_PWR);
    assert_eq!(FFStatusEvent::new(FFStatusType(0), 1).event_type(), EV_FF_STATUS);
    assert_eq!(UInputEvent::new(UInputType(0), 1).event_type(), EV_UINPUT);
}

#[test]
fn new_now_stamps_the_event() {
    let event = InputEvent::new_now(EV_KEY, 30, 1);
    let stamp = event.timestamp();
    assert_eq!(event, InputEvent::new_at(stamp, EV_KEY, 30, 1));
    assert!(0 <= stamp.tv_usec && stamp.tv_usec < 1_000_000);
    assert!(stamp.tv_sec > 1_500_000_000);
    let later = InputEvent::new_now(EV_REP, 0, 0);
    assert!(matches!(later, InputEvent::Repeat(_)));
    assert!(matches!(InputEvent::new_now(0x1f, 0, 0), InputEvent::Other(_)));
    assert!(later.timestamp().tv_sec >= stamp.tv_sec);
}

#[test]
fn abs_info_keeps_its_fields() {
    let info = AbsInfo::new(1, -2, 3, 4, 5, 6);
    assert_eq!(info.value(), 1);
    assert_eq!(info.minimum(), -2);
    assert_eq!(info.maximum(), 3);
    assert_eq!(info.fuzz(), 4);
    assert_eq!(info.flat(), 5);
    assert_eq!(info.resolution(), 6);
    assert_ne!(info, AbsInfo::new(1, -2, 3, 4, 5, 7));
}

#[test]
fn uinput_abs_setup_keeps_code_and_calibration() {
    let info = AbsInfo::new(0, 0, 255, 1, 2, 3);
    let setup = UinputAbsSetup::new(AbsAxisType(0x35), info);
    assert_eq!(setup.code(), 0x35);
    assert_eq!(setup.absinfo(), info);
}

#[test]
fn enum_parse_errors_are_all_alike() {
    assert_eq!(EnumParseError, EnumParseError.clone());
    assert_eq!(format!("{:?}", EnumParseError), "EnumParseError");
}

#[test]
fn an_event_of_a_kind_becomes_an_input_event() {
    let r = |type_: u16| raw(type_, 3, 4);
    assert_eq!(
        InputEvent::from(SynchronizationEvent(r(EV_SYN))),
        InputEvent::Synchronization(SynchronizationEvent(r(EV_SYN)))
    );
    assert_eq!(InputEvent::from(KeyEvent(r(EV_KEY))), InputEvent::Key(KeyEvent(r(EV_KEY))));
    assert_eq!(
        InputEvent::from(RelAxisEvent(r(EV_REL))),
        InputEvent::RelAxis(RelAxisEvent(r(EV_REL)))
    );
    assert_eq!(
        InputEvent::from(AbsAxisEvent(r(EV_ABS))),
        InputEvent::AbsAxis(AbsAxisEvent(r(EV_ABS)))
    );
    assert_eq!(InputEvent::from(MiscEvent(r(EV_MSC))), InputEvent::Misc(MiscEvent(r(EV_MSC))));
    assert_eq!(InputEvent::from(SwitchEvent(r(EV_SW))), InputEvent::Switch(SwitchEvent(r(EV_SW))));
    assert_eq!(InputEvent::from(LedEvent(r(EV_LED))), InputEvent::Led(LedEvent(r(EV_LED))));
    assert_eq!(InputEvent::from(SoundEvent(r(EV_SND))), InputEvent::Sound(SoundEvent(r(EV_SND))));
    assert_eq!(
        InputEvent::from(RepeatEvent(r(EV_REP))),
        InputEvent::Repeat(RepeatEvent(r(EV_REP)))
    );
    assert_eq!(
        InputEvent::from(FFEvent(r(EV_FF))),
        InputEvent::ForceFeedback(FFEvent(r(EV_FF)))
    );
    assert_eq!(InputEvent::from(PowerEvent(r(EV_PWR))), InputEvent::Power(PowerEvent(r(EV_PWR))));
    assert_eq!(
        InputEvent::from(FFStatusEvent(r(EV_FF_STATUS))),
        InputEvent::ForceFeedbackStatus(FFStatusEvent(r(EV_FF_STATUS)))
    );
    assert_eq!(
        InputEvent::from(UInputEvent(r(EV_UINPUT))),
        InputEvent::UInput(UInputEvent(r(EV_UINPUT)))
    );
    assert_eq!(InputEvent::from(OtherEvent(r(0x1f))), InputEvent::Other(OtherEvent(r(0x1f))));
    let key: InputEvent = KeyEvent::new(KeyType(30), 1).into();
    assert_eq!(key, InputEvent::new(EV_KEY, 30, 1));
    assert_eq!(InputEvent::from(raw(EV_PWR, 0, 1)), InputEvent::new(EV_PWR, 0, 1));
}
