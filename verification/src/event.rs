//! Events of any kind, and the pairing of an event with its typed code.

use vstd::prelude::*;
use crate::codes::{
    AbsAxisType, FFStatusType, FFType, KeyType, LedType, MiscType, OtherType, PowerType,
    RelAxisType, RepeatType, SoundType, SwitchType, SynchronizationType, UInputType, EV_ABS,
    EV_FF, EV_FF_STATUS, EV_KEY, EV_LED, EV_MSC, EV_PWR, EV_REL, EV_REP, EV_SND, EV_SW, EV_SYN,
    EV_UINPUT,
};
use crate::event_variants::{
    AbsAxisEvent, EvdevEvent, FFEvent, FFStatusEvent, KeyEvent, LedEvent, MiscEvent, OtherEvent,
    PowerEvent, RawEvent, RelAxisEvent, RepeatEvent, SoundEvent, SwitchEvent,
    SynchronizationEvent, UInputEvent,
};
use crate::time::{stamp_of, timeval_now, TimeVal};
use std::time::SystemTime;

verus! {

/// An event together with its code in the namespace of its kind, for matching
/// on both at once. It is meant to be had from [`InputEvent::kind`], which
/// makes the code that of the event.
#[derive(Copy, Clone, Debug, PartialEq, Eq, Structural)]
pub enum InputEventKind {
    Synchronization(SynchronizationEvent, SynchronizationType),
    Key(KeyEvent, KeyType),
    RelAxis(RelAxisEvent, RelAxisType),
    AbsAxis(AbsAxisEvent, AbsAxisType),
    Misc(MiscEvent, MiscType),
    Switch(SwitchEvent, SwitchType),
    Led(LedEvent, LedType),
    Sound(SoundEvent, SoundType),
    Repeat(RepeatEvent, RepeatType),
    ForceFeedback(FFEvent, FFType),
    Power(PowerEvent, PowerType),
    ForceFeedbackStatus(FFStatusEvent, FFStatusType),
    UInput(UInputEvent, UInputType),
    Other(OtherEvent, OtherType),
}

/// An event of an input device, by kind. The meaning of code and value
/// depends on the kind.
#[derive(Copy, Clone, Debug, PartialEq, Eq, Structural)]
pub enum InputEvent {
    Synchronization(SynchronizationEvent),
    Key(KeyEvent),
    RelAxis(RelAxisEvent),
    AbsAxis(AbsAxisEvent),
    Misc(MiscEvent),
    Switch(SwitchEvent),
    Led(LedEvent),
    Sound(SoundEvent),
    Repeat(RepeatEvent),
    ForceFeedback(FFEvent),
    Power(PowerEvent),
    ForceFeedbackStatus(FFStatusEvent),
    UInput(UInputEvent),
    Other(OtherEvent),
}

impl InputEvent {
    /// The event of the kind that the raw event's type selects. An event of
    /// a type that has no kind of its own is carried as `Other`.
    pub open spec fn of_raw(raw: RawEvent) -> InputEvent {
        if raw.type_ == EV_SYN {
            InputEvent::Synchronization(SynchronizationEvent(raw))
        } else if raw.type_ == EV_KEY {
            InputEvent::Key(KeyEvent(raw))
        } else if raw.type_ == EV_REL {
            InputEvent::RelAxis(RelAxisEvent(raw))
        } else if raw.type_ == EV_ABS {
            InputEvent::AbsAxis(AbsAxisEvent(raw))
        } else if raw.type_ == EV_MSC {
            InputEvent::Misc(MiscEvent(raw))
        } else if raw.type_ == EV_SW {
            InputEvent::Switch(SwitchEvent(raw))
        } else if raw.type_ == EV_LED {
            InputEvent::Led(LedEvent(raw))
        } else if raw.type_ == EV_SND {
            InputEvent::Sound(SoundEvent(raw))
        } else if raw.type_ == EV_REP {
            InputEvent::Repeat(RepeatEvent(raw))
        } else if raw.type_ == EV_FF {
            InputEvent::ForceFeedback(FFEvent(raw))
        } else if raw.type_ == EV_PWR {
            InputEvent::Power(PowerEvent(raw))
        } else if raw.type_ == EV_FF_STATUS {
            InputEvent::ForceFeedbackStatus(FFStatusEvent(raw))
        } else if raw.type_ == EV_UINPUT {
            InputEvent::UInput(UInputEvent(raw))
        } else {
            InputEvent::Other(OtherEvent(raw))
        }
    }

    /// The event paired with its code, under the same kind.
    pub open spec fn kind_of(self) -> InputEventKind {
        match self {
            InputEvent::Synchronization(ev) => InputEventKind::Synchronization(
                ev,
                SynchronizationType(ev.0.code),
            ),
            InputEvent::Key(ev) => InputEventKind::Key(ev, KeyType(ev.0.code)),
            InputEvent::RelAxis(ev) => InputEventKind::RelAxis(ev, RelAxisType(ev.0.code)),
            InputEvent::AbsAxis(ev) => InputEventKind::AbsAxis(ev, AbsAxisType(ev.0.code)),
            InputEvent::Misc(ev) => InputEventKind::Misc(ev, MiscType(ev.0.code)),
            InputEvent::Switch(ev) => InputEventKind::Switch(ev, SwitchType(ev.0.code)),
            InputEvent::Led(ev) => InputEventKind::Led(ev, LedType(ev.0.code)),
            InputEvent::Sound(ev) => InputEventKind::Sound(ev, SoundType(ev.0.code)),
            InputEvent::Repeat(ev) => InputEventKind::Repeat(ev, RepeatType(ev.0.code)),
            InputEvent::ForceFeedback(ev) => InputEventKind::ForceFeedback(ev, FFType(ev.0.code)),
            InputEvent::Power(ev) => InputEventKind::Power(ev, PowerType(ev.0.code)),
            InputEvent::ForceFeedbackStatus(ev) => InputEventKind::ForceFeedbackStatus(
                ev,
                FFStatusType(ev.0.code),
            ),
            InputEvent::UInput(ev) => InputEventKind::UInput(ev, UInputType(ev.0.code)),
            InputEvent::Other(ev) => InputEventKind::Other(ev, OtherType(ev.0.code)),
        }
    }

    /// Pairs the event with its code, wrapped in the code type of the event's
    /// kind, so that one `match` tells both the kind and the key or axis.
    #[inline]
    pub fn kind(self) -> (k: InputEventKind)
        ensures
            k == self.kind_of(),
    {
        match self {
            InputEvent::Synchronization(ev) => InputEventKind::Synchronization(ev, ev.kind()),
            InputEvent::Key(ev) => InputEventKind::Key(ev, ev.kind()),
            InputEvent::RelAxis(ev) => InputEventKind::RelAxis(ev, ev.kind()),
            InputEvent::AbsAxis(ev) => InputEventKind::AbsAxis(ev, ev.kind()),
            InputEvent::Misc(ev) => InputEventKind::Misc(ev, ev.kind()),
            InputEvent::Switch(ev) => InputEventKind::Switch(ev, ev.kind()),
            InputEvent::Led(ev) => InputEventKind::Led(ev, ev.kind()),
            InputEvent::Sound(ev) => InputEventKind::Sound(ev, ev.kind()),
            InputEvent::Repeat(ev) => InputEventKind::Repeat(ev, ev.kind()),
            InputEvent::ForceFeedback(ev) => InputEventKind::ForceFeedback(ev, ev.kind()),
            InputEvent::Power(ev) => InputEventKind::Power(ev, ev.kind()),
            InputEvent::ForceFeedbackStatus(ev) => InputEventKind::ForceFeedbackStatus(
                ev,
                ev.kind(),
            ),
            InputEvent::UInput(ev) => InputEventKind::UInput(ev, ev.kind()),
            InputEvent::Other(ev) => InputEventKind::Other(ev, ev.kind()),
        }
    }

    /// Sorts a raw event into its kind by its type.
    pub fn from_raw(raw: RawEvent) -> (ev: Self)
        ensures
            ev == Self::of_raw(raw),
            ev.raw() == raw,
    {
        let t: u16 = raw.type_;
        if t == EV_SYN {
            InputEvent::Synchronization(SynchronizationEvent(raw))
        } else if t == EV_KEY {
            InputEvent::Key(KeyEvent(raw))
        } else if t == EV_REL {
            InputEvent::RelAxis(RelAxisEvent(raw))
        } else if t == EV_ABS {
            InputEvent::AbsAxis(AbsAxisEvent(raw))
        } else if t == EV_MSC {
            InputEvent::Misc(MiscEvent(raw))
        } else if t == EV_SW {
            InputEvent::Switch(SwitchEvent(raw))
        } else if t == EV_LED {
            InputEvent::Led(LedEvent(raw))
        } else if t == EV_SND {
            InputEvent::Sound(SoundEvent(raw))
        } else if t == EV_REP {
            InputEvent::Repeat(RepeatEvent(raw))
        } else if t == EV_FF {
            InputEvent::ForceFeedback(FFEvent(raw))
        } else if t == EV_PWR {
            InputEvent::Power(PowerEvent(raw))
        } else if t == EV_FF_STATUS {
            InputEvent::ForceFeedbackStatus(FFStatusEvent(raw))
        } else if t == EV_UINPUT {
            InputEvent::UInput(UInputEvent(raw))
        } else {
            InputEvent::Other(OtherEvent(raw))
        }
    }

    /// Creates an event with the time field at zero. This is what emitting on
    /// a virtual device wants: the kernel stamps the event when it passes it
    /// on.
    pub fn new(type_: u16, code: u16, value: i32) -> (ev: Self)
        ensures
            ev == Self::of_raw(RawEvent { time: TimeVal::zero(), type_, code, value }),
    {
        let raw = RawEvent { time: TimeVal { tv_sec: 0, tv_usec: 0 }, type_, code, value };
        Self::from_raw(raw)
    }

    /// Creates an event with the time field set to the present moment of the
    /// system clock: to the stamp of the time that the clock gives, whichever
    /// that is. For emitting on a virtual device [`InputEvent::new`] does as
    /// well: the kernel stamps the events that it passes on.
    pub fn new_now(type_: u16, code: u16, value: i32) -> (ev: Self)
        ensures
            ev == Self::of_raw(RawEvent { time: ev.raw().time, type_, code, value }),
            exists|now: SystemTime| ev.raw().time == #[trigger] stamp_of(now),
            0 <= ev.raw().time.tv_usec < 1_000_000,
    {
        Self::new_at(timeval_now(), type_, code, value)
    }

    /// Creates the event of the given type, code and value that is stamped
    /// with the given time.
    pub fn new_at(time: TimeVal, type_: u16, code: u16, value: i32) -> (ev: Self)
        ensures
            ev == Self::of_raw(RawEvent { time, type_, code, value }),
    {
        Self::from_raw(RawEvent { time, type_, code, value })
    }
}

impl From<RawEvent> for InputEvent {
    fn from(raw: RawEvent) -> (ev: InputEvent) {
        InputEvent::from_raw(raw)
    }
}

impl vstd::std_specs::convert::FromSpecImpl<RawEvent> for InputEvent {
    open spec fn obeys_from_spec() -> bool {
        true
    }

    open spec fn from_spec(raw: RawEvent) -> InputEvent {
        InputEvent::of_raw(raw)
    }
}

impl From<SynchronizationEvent> for InputEvent {
    fn from(event: SynchronizationEvent) -> (ev: InputEvent) {
        InputEvent::Synchronization(event)
    }
}

impl vstd::std_specs::convert::FromSpecImpl<SynchronizationEvent> for InputEvent {
    open spec fn obeys_from_spec() -> bool {
        true
    }

    open spec fn from_spec(event: SynchronizationEvent) -> InputEvent {
        InputEvent::Synchronization(event)
    }
}

impl From<KeyEvent> for InputEvent {
    fn from(event: KeyEvent) -> (ev: InputEvent) {
        InputEvent::Key(event)
    }
}

impl vstd::std_specs::convert::FromSpecImpl<KeyEvent> for InputEvent {
    open spec fn obeys_from_spec() -> bool {
        true
    }

    open spec fn from_spec(event: KeyEvent) -> InputEvent {
        InputEvent::Key(event)
    }
}

impl From<RelAxisEvent> for InputEvent {
    fn from(event: RelAxisEvent) -> (ev: InputEvent) {
        InputEvent::RelAxis(event)
    }
}

impl vstd::std_specs::convert::FromSpecImpl<RelAxisEvent> for InputEvent {
    open spec fn obeys_from_spec() -> bool {
        true
    }

    open spec fn from_spec(event: RelAxisEvent) -> InputEvent {
        InputEvent::RelAxis(event)
    }
}

impl From<AbsAxisEvent> for InputEvent {
    fn from(event: AbsAxisEvent) -> (ev: InputEvent) {
        InputEvent::AbsAxis(event)
    }
}

impl vstd::std_specs::convert::FromSpecImpl<AbsAxisEvent> for InputEvent {
    open spec fn obeys_from_spec() -> bool {
        true
    }

    open spec fn from_spec(event: AbsAxisEvent) -> InputEvent {
        InputEvent::AbsAxis(event)
    }
}

impl From<MiscEvent> for InputEvent {
    fn from(event: MiscEvent) -> (ev: InputEvent) {
        InputEvent::Misc(event)
    }
}

impl vstd::std_specs::convert::FromSpecImpl<MiscEvent> for InputEvent {
    open spec fn obeys_from_spec() -> bool {
        true
    }

    open spec fn from_spec(event: MiscEvent) -> InputEvent {
        InputEvent::Misc(event)
    }
}

impl From<SwitchEvent> for InputEvent {
    fn from(event: SwitchEvent) -> (ev: InputEvent) {
        InputEvent::Switch(event)
    }
}

impl vstd::std_specs::convert::FromSpecImpl<SwitchEvent> for InputEvent {
    open spec fn obeys_from_spec() -> bool {
        true
    }

    open spec fn from_spec(event: SwitchEvent) -> InputEvent {
        InputEvent::Switch(event)
    }
}

impl From<LedEvent> for InputEvent {
    fn from(event: LedEvent) -> (ev: InputEvent) {
        InputEvent::Led(event)
    }
}

impl vstd::std_specs::convert::FromSpecImpl<LedEvent> for InputEvent {
    open spec fn obeys_from_spec() -> bool {
        true
    }

    open spec fn from_spec(event: LedEvent) -> InputEvent {
        InputEvent::Led(event)
    }
}

impl From<SoundEvent> for InputEvent {
    fn from(event: SoundEvent) -> (ev: InputEvent) {
        InputEvent::Sound(event)
    }
}

impl vstd::std_specs::convert::FromSpecImpl<SoundEvent> for InputEvent {
    open spec fn obeys_from_spec() -> bool {
        true
    }

    open spec fn from_spec(event: SoundEvent) -> InputEvent {
        InputEvent::Sound(event)
    }
}

impl From<RepeatEvent> for InputEvent {
    fn from(event: RepeatEvent) -> (ev: InputEvent) {
        InputEvent::Repeat(event)
    }
}

impl vstd::std_specs::convert::FromSpecImpl<RepeatEvent> for InputEvent {
    open spec fn obeys_from_spec() -> bool {
        true
    }

    open spec fn from_spec(event: RepeatEvent) -> InputEvent {
        InputEvent::Repeat(event)
    }
}

impl From<FFEvent> for InputEvent {
    fn from(event: FFEvent) -> (ev: InputEvent) {
        InputEvent::ForceFeedback(event)
    }
}

impl vstd::std_specs::convert::FromSpecImpl<FFEvent> for InputEvent {
    open spec fn obeys_from_spec() -> bool {
        true
    }

    open spec fn from_spec(event: FFEvent) -> InputEvent {
        InputEvent::ForceFeedback(event)
    }
}

impl From<PowerEvent> for InputEvent {
    fn from(event: PowerEvent) -> (ev: InputEvent) {
        InputEvent::Power(event)
    }
}

impl vstd::std_specs::convert::FromSpecImpl<PowerEvent> for InputEvent {
    open spec fn obeys_from_spec() -> bool {
        true
    }

    open spec fn from_spec(event: PowerEvent) -> InputEvent {
        InputEvent::Power(event)
    }
}

impl From<FFStatusEvent> for InputEvent {
    fn from(event: FFStatusEvent) -> (ev: InputEvent) {
        InputEvent::ForceFeedbackStatus(event)
    }
}

impl vstd::std_specs::convert::FromSpecImpl<FFStatusEvent> for InputEvent {
    open spec fn obeys_from_spec() -> bool {
        true
    }

    open spec fn from_spec(event: FFStatusEvent) -> InputEvent {
        InputEvent::ForceFeedbackStatus(event)
    }
}

impl From<UInputEvent> for InputEvent {
    fn from(event: UInputEvent) -> (ev: InputEvent) {
        InputEvent::UInput(event)
    }
}

impl vstd::std_specs::convert::FromSpecImpl<UInputEvent> for InputEvent {
    open spec fn obeys_from_spec() -> bool {
        true
    }

    open spec fn from_spec(event: UInputEvent) -> InputEvent {
        InputEvent::UInput(event)
    }
}

impl From<OtherEvent> for InputEvent {
    fn from(event: OtherEvent) -> (ev: InputEvent) {
        InputEvent::Other(event)
    }
}

impl vstd::std_specs::convert::FromSpecImpl<OtherEvent> for InputEvent {
    open spec fn obeys_from_spec() -> bool {
        true
    }

    open spec fn from_spec(event: OtherEvent) -> InputEvent {
        InputEvent::Other(event)
    }
}

impl EvdevEvent for InputEvent {
    open spec fn raw(&self) -> RawEvent {
        match *self {
            InputEvent::Synchronization(ev) => ev.0,
            InputEvent::Key(ev) => ev.0,
            InputEvent::RelAxis(ev) => ev.0,
            InputEvent::AbsAxis(ev) => ev.0,
            InputEvent::Misc(ev) => ev.0,
            InputEvent::Switch(ev) => ev.0,
            InputEvent::Led(ev) => ev.0,
            InputEvent::Sound(ev) => ev.0,
            InputEvent::Repeat(ev) => ev.0,
            InputEvent::ForceFeedback(ev) => ev.0,
            InputEvent::Power(ev) => ev.0,
            InputEvent::ForceFeedbackStatus(ev) => ev.0,
            InputEvent::UInput(ev) => ev.0,
            InputEvent::Other(ev) => ev.0,
        }
    }

    fn timestamp(&self) -> (t: TimeVal) {
        self.as_raw().time
    }

    fn event_type(&self) -> (t: u16) {
        self.as_raw().type_
    }

    fn code(&self) -> (c: u16) {
        self.as_raw().code
    }

    fn value(&self) -> (v: i32) {
        self.as_raw().value
    }
}

impl InputEvent {
    /// The raw event inside, whatever the kind.
    pub fn as_raw(&self) -> (raw: RawEvent)
        ensures
            raw == self.raw(),
    {
        match self {
            InputEvent::Synchronization(ev) => ev.0,
            InputEvent::Key(ev) => ev.0,
            InputEvent::RelAxis(ev) => ev.0,
            InputEvent::AbsAxis(ev) => ev.0,
            InputEvent::Misc(ev) => ev.0,
            InputEvent::Switch(ev) => ev.0,
            InputEvent::Led(ev) => ev.0,
            InputEvent::Sound(ev) => ev.0,
            InputEvent::Repeat(ev) => ev.0,
            InputEvent::ForceFeedback(ev) => ev.0,
            InputEvent::Power(ev) => ev.0,
            InputEvent::ForceFeedbackStatus(ev) => ev.0,
            InputEvent::UInput(ev) => ev.0,
            InputEvent::Other(ev) => ev.0,
        }
    }
}

} // verus!
