//! The event kinds: one type for each event type of the kernel, each a
//! [`RawEvent`] that is read through [`EvdevEvent`].

use vstd::prelude::*;
use crate::codes::{
    AbsAxisType, FFStatusType, FFType, KeyType, LedType, MiscType, OtherType, PowerType,
    RelAxisType, RepeatType, SoundType, SwitchType, SynchronizationType, UInputType, EV_ABS,
    EV_FF, EV_FF_STATUS, EV_KEY, EV_LED, EV_MSC, EV_PWR, EV_REL, EV_REP, EV_SND, EV_SW, EV_SYN,
    EV_UINPUT,
};
use crate::time::TimeVal;

verus! {

/// An event as the kernel delivers it.
#[derive(Copy, Clone, Debug, PartialEq, Eq, Structural)]
pub struct RawEvent {
    pub time: TimeVal,
    pub type_: u16,
    pub code: u16,
    pub value: i32,
}

/// What every event answers, whatever its kind.
pub trait EvdevEvent {
    /// The raw event that this event carries.
    spec fn raw(&self) -> RawEvent;

    /// The time at which the event occurred.
    fn timestamp(&self) -> (t: TimeVal)
        ensures
            t == self.raw().time,
    ;

    /// The raw event type.
    fn event_type(&self) -> (t: u16)
        ensures
            t == self.raw().type_,
    ;

    /// The raw code, whose meaning depends on the event type.
    fn code(&self) -> (c: u16)
        ensures
            c == self.raw().code,
    ;

    /// The raw value. For keys and switches 0 is released or off and 1 pressed
    /// or on; for axes it depends on the hardware and the driver.
    fn value(&self) -> (v: i32)
        ensures
            v == self.raw().value,
    ;
}

/// A synchronization event: the marker between batches.
#[derive(Copy, Clone, Debug, PartialEq, Eq, Structural)]
pub struct SynchronizationEvent(pub RawEvent);

impl SynchronizationEvent {
    /// An event of this kind with the given code and value, stamped with the
    /// epoch.
    pub fn new(code: SynchronizationType, value: i32) -> (ev: Self)
        ensures
            ev.0 == (RawEvent { time: TimeVal::zero(), type_: EV_SYN, code: code.0, value }),
    {
        SynchronizationEvent(RawEvent { time: TimeVal { tv_sec: 0, tv_usec: 0 }, type_: EV_SYN, code: code.0, value })
    }

    /// The event's code in the namespace of its kind.
    pub fn kind(&self) -> (k: SynchronizationType)
        ensures
            k.0 == self.0.code,
    {
        SynchronizationType(self.0.code)
    }
}

impl EvdevEvent for SynchronizationEvent {
    open spec fn raw(&self) -> RawEvent {
        self.0
    }

    fn timestamp(&self) -> (t: TimeVal) {
        self.0.time
    }

    fn event_type(&self) -> (t: u16) {
        self.0.type_
    }

    fn code(&self) -> (c: u16) {
        self.0.code
    }

    fn value(&self) -> (v: i32) {
        self.0.value
    }
}

/// A key or button event: value 0 is a release, 1 a press, 2 a repeat.
#[derive(Copy, Clone, Debug, PartialEq, Eq, Structural)]
pub struct KeyEvent(pub RawEvent);

impl KeyEvent {
    /// An event of this kind with the given code and value, stamped with the
    /// epoch.
    pub fn new(code: KeyType, value: i32) -> (ev: Self)
        ensures
            ev.0 == (RawEvent { time: TimeVal::zero(), type_: EV_KEY, code: code.0, value }),
    {
        KeyEvent(RawEvent { time: TimeVal { tv_sec: 0, tv_usec: 0 }, type_: EV_KEY, code: code.0, value })
    }

    /// The event's code in the namespace of its kind.
    pub fn kind(&self) -> (k: KeyType)
        ensures
            k.0 == self.0.code,
    {
        KeyType(self.0.code)
    }
}

impl EvdevEvent for KeyEvent {
    open spec fn raw(&self) -> RawEvent {
        self.0
    }

    fn timestamp(&self) -> (t: TimeVal) {
        self.0.time
    }

    fn event_type(&self) -> (t: u16) {
        self.0.type_
    }

    fn code(&self) -> (c: u16) {
        self.0.code
    }

    fn value(&self) -> (v: i32) {
        self.0.value
    }
}

/// A relative axis event: the value is a signed delta.
#[derive(Copy, Clone, Debug, PartialEq, Eq, Structural)]
pub struct RelAxisEvent(pub RawEvent);

impl RelAxisEvent {
    /// An event of this kind with the given code and value, stamped with the
    /// epoch.
    pub fn new(code: RelAxisType, value: i32) -> (ev: Self)
        ensures
            ev.0 == (RawEvent { time: TimeVal::zero(), type_: EV_REL, code: code.0, value }),
    {
        RelAxisEvent(RawEvent { time: TimeVal { tv_sec: 0, tv_usec: 0 }, type_: EV_REL, code: code.0, value })
    }

    /// The event's code in the namespace of its kind.
    pub fn kind(&self) -> (k: RelAxisType)
        ensures
            k.0 == self.0.code,
    {
        RelAxisType(self.0.code)
    }
}

impl EvdevEvent for RelAxisEvent {
    open spec fn raw(&self) -> RawEvent {
        self.0
    }

    fn timestamp(&self) -> (t: TimeVal) {
        self.0.time
    }

    fn event_type(&self) -> (t: u16) {
        self.0.type_
    }

    fn code(&self) -> (c: u16) {
        self.0.code
    }

    fn value(&self) -> (v: i32) {
        self.0.value
    }
}

/// An absolute axis event: the value is the axis's new position.
#[derive(Copy, Clone, Debug, PartialEq, Eq, Structural)]
pub struct AbsAxisEvent(pub RawEvent);

impl AbsAxisEvent {
    /// An event of this kind with the given code and value, stamped with the
    /// epoch.
    pub fn new(code: AbsAxisType, value: i32) -> (ev: Self)
        ensures
            ev.0 == (RawEvent { time: TimeVal::zero(), type_: EV_ABS, code: code.0, value }),
    {
        AbsAxisEvent(RawEvent { time: TimeVal { tv_sec: 0, tv_usec: 0 }, type_: EV_ABS, code: code.0, value })
    }

    /// The event's code in the namespace of its kind.
    pub fn kind(&self) -> (k: AbsAxisType)
        ensures
            k.0 == self.0.code,
    {
        AbsAxisType(self.0.code)
    }
}

impl EvdevEvent for AbsAxisEvent {
    open spec fn raw(&self) -> RawEvent {
        self.0
    }

    fn timestamp(&self) -> (t: TimeVal) {
        self.0.time
    }

    fn event_type(&self) -> (t: u16) {
        self.0.type_
    }

    fn code(&self) -> (c: u16) {
        self.0.code
    }

    fn value(&self) -> (v: i32) {
        self.0.value
    }
}

/// A miscellaneous event.
#[derive(Copy, Clone, Debug, PartialEq, Eq, Structural)]
pub struct MiscEvent(pub RawEvent);

impl MiscEvent {
    /// An event of this kind with the given code and value, stamped with the
    /// epoch.
    pub fn new(code: MiscType, value: i32) -> (ev: Self)
        ensures
            ev.0 == (RawEvent { time: TimeVal::zero(), type_: EV_MSC, code: code.0, value }),
    {
        MiscEvent(RawEvent { time: TimeVal { tv_sec: 0, tv_usec: 0 }, type_: EV_MSC, code: code.0, value })
    }

    /// The event's code in the namespace of its kind.
    pub fn kind(&self) -> (k: MiscType)
        ensures
            k.0 == self.0.code,
    {
        MiscType(self.0.code)
    }
}

impl EvdevEvent for MiscEvent {
    open spec fn raw(&self) -> RawEvent {
        self.0
    }

    fn timestamp(&self) -> (t: TimeVal) {
        self.0.time
    }

    fn event_type(&self) -> (t: u16) {
        self.0.type_
    }

    fn code(&self) -> (c: u16) {
        self.0.code
    }

    fn value(&self) -> (v: i32) {
        self.0.value
    }
}

/// A switch event: value 0 is off, anything else on.
#[derive(Copy, Clone, Debug, PartialEq, Eq, Structural)]
pub struct SwitchEvent(pub RawEvent);

impl SwitchEvent {
    /// An event of this kind with the given code and value, stamped with the
    /// epoch.
    pub fn new(code: SwitchType, value: i32) -> (ev: Self)
        ensures
            ev.0 == (RawEvent { time: TimeVal::zero(), type_: EV_SW, code: code.0, value }),
    {
        SwitchEvent(RawEvent { time: TimeVal { tv_sec: 0, tv_usec: 0 }, type_: EV_SW, code: code.0, value })
    }

    /// The event's code in the namespace of its kind.
    pub fn kind(&self) -> (k: SwitchType)
        ensures
            k.0 == self.0.code,
    {
        SwitchType(self.0.code)
    }
}

impl EvdevEvent for SwitchEvent {
    open spec fn raw(&self) -> RawEvent {
        self.0
    }

    fn timestamp(&self) -> (t: TimeVal) {
        self.0.time
    }

    fn event_type(&self) -> (t: u16) {
        self.0.type_
    }

    fn code(&self) -> (c: u16) {
        self.0.code
    }

    fn value(&self) -> (v: i32) {
        self.0.value
    }
}

/// An LED event: value 0 is dark, anything else lit.
#[derive(Copy, Clone, Debug, PartialEq, Eq, Structural)]
pub struct LedEvent(pub RawEvent);

impl LedEvent {
    /// An event of this kind with the given code and value, stamped with the
    /// epoch.
    pub fn new(code: LedType, value: i32) -> (ev: Self)
        ensures
            ev.0 == (RawEvent { time: TimeVal::zero(), type_: EV_LED, code: code.0, value }),
    {
        LedEvent(RawEvent { time: TimeVal { tv_sec: 0, tv_usec: 0 }, type_: EV_LED, code: code.0, value })
    }

    /// The event's code in the namespace of its kind.
    pub fn kind(&self) -> (k: LedType)
        ensures
            k.0 == self.0.code,
    {
        LedType(self.0.code)
    }
}

impl EvdevEvent for LedEvent {
    open spec fn raw(&self) -> RawEvent {
        self.0
    }

    fn timestamp(&self) -> (t: TimeVal) {
        self.0.time
    }

    fn event_type(&self) -> (t: u16) {
        self.0.type_
    }

    fn code(&self) -> (c: u16) {
        self.0.code
    }

    fn value(&self) -> (v: i32) {
        self.0.value
    }
}

/// A sound event.
#[derive(Copy, Clone, Debug, PartialEq, Eq, Structural)]
pub struct SoundEvent(pub RawEvent);

impl SoundEvent {
    /// An event of this kind with the given code and value, stamped with the
    /// epoch.
    pub fn new(code: SoundType, value: i32) -> (ev: Self)
        ensures
            ev.0 == (RawEvent { time: TimeVal::zero(), type_: EV_SND, code: code.0, value }),
    {
        SoundEvent(RawEvent { time: TimeVal { tv_sec: 0, tv_usec: 0 }, type_: EV_SND, code: code.0, value })
    }

    /// The event's code in the namespace of its kind.
    pub fn kind(&self) -> (k: SoundType)
        ensures
            k.0 == self.0.code,
    {
        SoundType(self.0.code)
    }
}

impl EvdevEvent for SoundEvent {
    open spec fn raw(&self) -> RawEvent {
        self.0
    }

    fn timestamp(&self) -> (t: TimeVal) {
        self.0.time
    }

    fn event_type(&self) -> (t: u16) {
        self.0.type_
    }

    fn code(&self) -> (c: u16) {
        self.0.code
    }

    fn value(&self) -> (v: i32) {
        self.0.value
    }
}

/// An autorepeat event.
#[derive(Copy, Clone, Debug, PartialEq, Eq, Structural)]
pub struct RepeatEvent(pub RawEvent);

impl RepeatEvent {
    /// An event of this kind with the given code and value, stamped with the
    /// epoch.
    pub fn new(code: RepeatType, value: i32) -> (ev: Self)
        ensures
            ev.0 == (RawEvent { time: TimeVal::zero(), type_: EV_REP, code: code.0, value }),
    {
        RepeatEvent(RawEvent { time: TimeVal { tv_sec: 0, tv_usec: 0 }, type_: EV_REP, code: code.0, value })
    }

    /// The event's code in the namespace of its kind.
    pub fn kind(&self) -> (k: RepeatType)
        ensures
            k.0 == self.0.code,
    {
        RepeatType(self.0.code)
    }
}

impl EvdevEvent for RepeatEvent {
    open spec fn raw(&self) -> RawEvent {
        self.0
    }

    fn timestamp(&self) -> (t: TimeVal) {
        self.0.time
    }

    fn event_type(&self) -> (t: u16) {
        self.0.type_
    }

    fn code(&self) -> (c: u16) {
        self.0.code
    }

    fn value(&self) -> (v: i32) {
        self.0.value
    }
}

/// A force-feedback event.
#[derive(Copy, Clone, Debug, PartialEq, Eq, Structural)]
pub struct FFEvent(pub RawEvent);

impl FFEvent {
    /// An event of this kind with the given code and value, stamped with the
    /// epoch.
    pub fn new(code: FFType, value: i32) -> (ev: Self)
        ensures
            ev.0 == (RawEvent { time: TimeVal::zero(), type_: EV_FF, code: code.0, value }),
    {
        FFEvent(RawEvent { time: TimeVal { tv_sec: 0, tv_usec: 0 }, type_: EV_FF, code: code.0, value })
    }

    /// The event's code in the namespace of its kind.
    pub fn kind(&self) -> (k: FFType)
        ensures
            k.0 == self.0.code,
    {
        FFType(self.0.code)
    }
}

impl EvdevEvent for FFEvent {
    open spec fn raw(&self) -> RawEvent {
        self.0
    }

    fn timestamp(&self) -> (t: TimeVal) {
        self.0.time
    }

    fn event_type(&self) -> (t: u16) {
        self.0.type_
    }

    fn code(&self) -> (c: u16) {
        self.0.code
    }

    fn value(&self) -> (v: i32) {
        self.0.value
    }
}

/// A power-management event.
#[derive(Copy, Clone, Debug, PartialEq, Eq, Structural)]
pub struct PowerEvent(pub RawEvent);

impl PowerEvent {
    /// An event of this kind with the given code and value, stamped with the
    /// epoch.
    pub fn new(code: PowerType, value: i32) -> (ev: Self)
        ensures
            ev.0 == (RawEvent { time: TimeVal::zero(), type_: EV_PWR, code: code.0, value }),
    {
        PowerEvent(RawEvent { time: TimeVal { tv_sec: 0, tv_usec: 0 }, type_: EV_PWR, code: code.0, value })
    }

    /// The event's code in the namespace of its kind.
    pub fn kind(&self) -> (k: PowerType)
        ensures
            k.0 == self.0.code,
    {
        PowerType(self.0.code)
    }
}

impl EvdevEvent for PowerEvent {
    open spec fn raw(&self) -> RawEvent {
        self.0
    }

    fn timestamp(&self) -> (t: TimeVal) {
        self.0.time
    }

    fn event_type(&self) -> (t: u16) {
        self.0.type_
    }

    fn code(&self) -> (c: u16) {
        self.0.code
    }

    fn value(&self) -> (v: i32) {
        self.0.value
    }
}

/// A force-feedback status event.
#[derive(Copy, Clone, Debug, PartialEq, Eq, Structural)]
pub struct FFStatusEvent(pub RawEvent);

impl FFStatusEvent {
    /// An event of this kind with the given code and value, stamped with the
    /// epoch.
    pub fn new(code: FFStatusType, value: i32) -> (ev: Self)
        ensures
            ev.0 == (RawEvent { time: TimeVal::zero(), type_: EV_FF_STATUS, code: code.0, value }),
    {
        FFStatusEvent(RawEvent { time: TimeVal { tv_sec: 0, tv_usec: 0 }, type_: EV_FF_STATUS, code: code.0, value })
    }

    /// The event's code in the namespace of its kind.
    pub fn kind(&self) -> (k: FFStatusType)
        ensures
            k.0 == self.0.code,
    {
        FFStatusType(self.0.code)
    }
}

impl EvdevEvent for FFStatusEvent {
    open spec fn raw(&self) -> RawEvent {
        self.0
    }

    fn timestamp(&self) -> (t: TimeVal) {
        self.0.time
    }

    fn event_type(&self) -> (t: u16) {
        self.0.type_
    }

    fn code(&self) -> (c: u16) {
        self.0.code
    }

    fn value(&self) -> (v: i32) {
        self.0.value
    }
}

/// A request of the user-level input driver.
#[derive(Copy, Clone, Debug, PartialEq, Eq, Structural)]
pub struct UInputEvent(pub RawEvent);

impl UInputEvent {
    /// An event of this kind with the given code and value, stamped with the
    /// epoch.
    pub fn new(code: UInputType, value: i32) -> (ev: Self)
        ensures
            ev.0 == (RawEvent { time: TimeVal::zero(), type_: EV_UINPUT, code: code.0, value }),
    {
        UInputEvent(RawEvent { time: TimeVal { tv_sec: 0, tv_usec: 0 }, type_: EV_UINPUT, code: code.0, value })
    }

    /// The event's code in the namespace of its kind.
    pub fn kind(&self) -> (k: UInputType)
        ensures
            k.0 == self.0.code,
    {
        UInputType(self.0.code)
    }
}

impl EvdevEvent for UInputEvent {
    open spec fn raw(&self) -> RawEvent {
        self.0
    }

    fn timestamp(&self) -> (t: TimeVal) {
        self.0.time
    }

    fn event_type(&self) -> (t: u16) {
        self.0.type_
    }

    fn code(&self) -> (c: u16) {
        self.0.code
    }

    fn value(&self) -> (v: i32) {
        self.0.value
    }
}

/// An event of a type that has no kind of its own.
#[derive(Copy, Clone, Debug, PartialEq, Eq, Structural)]
pub struct OtherEvent(pub RawEvent);

impl OtherEvent {
    /// The event's code.
    pub fn kind(&self) -> (k: OtherType)
        ensures
            k.0 == self.0.code,
    {
        OtherType(self.0.code)
    }
}

impl EvdevEvent for OtherEvent {
    open spec fn raw(&self) -> RawEvent {
        self.0
    }

    fn timestamp(&self) -> (t: TimeVal) {
        self.0.time
    }

    fn event_type(&self) -> (t: u16) {
        self.0.type_
    }

    fn code(&self) -> (c: u16) {
        self.0.code
    }

    fn value(&self) -> (v: i32) {
        self.0.value
    }
}

} // verus!
